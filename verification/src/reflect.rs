//! Anti-stuck mechanism: failure counting, forced reflection and loop
//! detection. It makes no model calls of its own: its messages are injected
//! into the session as system messages.
use vstd::prelude::*;
use crate::config::Config;
use crate::text::{decimal, push_decimal, push_str, str_eq, string_of};

verus! {

/// The counters of the anti-stuck mechanism.
pub struct ReflectState {
    consecutive_same_tool_failures: u32,
    total_failures: u32,
    last_tool: Option<String>,
    last_args: Option<String>,
    same_tool_same_args_count: u32,
    reset_after_turn: bool,
}

/// What the counters hold.
pub struct ReflectView {
    pub consecutive_same_tool_failures: nat,
    pub total_failures: nat,
    pub last_tool: Option<Seq<char>>,
    pub last_args: Option<Seq<char>>,
    pub same_tool_same_args_count: nat,
}

/// The view of an optional string.
pub open spec fn opt_view(o: Option<String>) -> Option<Seq<char>> {
    match o {
        Some(s) => Some(s@),
        None => None,
    }
}

/// The counters of a state with no failures.
pub open spec fn clean_view() -> ReflectView {
    ReflectView {
        consecutive_same_tool_failures: 0,
        total_failures: 0,
        last_tool: None,
        last_args: None,
        same_tool_same_args_count: 0,
    }
}

/// The counters after an attempt: a success clears them; a failure counts
/// one more failure, one more failure of the same tool (or restarts at one
/// for another tool) and one more repeat of the same arguments (or restarts
/// at zero).
pub open spec fn after_attempt(
    v: ReflectView,
    tool: Seq<char>,
    args: Seq<char>,
    success: bool,
) -> ReflectView {
    if success {
        clean_view()
    } else {
        let same_tool = v.last_tool == Some(tool);
        let same_args = v.last_args == Some(args);
        ReflectView {
            total_failures: v.total_failures + 1,
            consecutive_same_tool_failures: if same_tool {
                v.consecutive_same_tool_failures + 1
            } else {
                1
            },
            same_tool_same_args_count: if same_tool && same_args {
                v.same_tool_same_args_count + 1
            } else {
                0
            },
            last_tool: Some(tool),
            last_args: Some(args),
        }
    }
}

/// Message that blocks a call repeated with the same arguments.
pub open spec fn block_message() -> Seq<char> {
    "Do NOT call the same tool with the same arguments again. Try a different approach entirely."@
}

/// Message that asks the model to reflect after `n` failures of `tool`.
pub open spec fn reflect_message(tool: Seq<char>, n: nat) -> Seq<char> {
    "You've called `"@ + tool + "` "@ + decimal(n)
        + " times and it failed each time. Before your next action, answer:\n1. What assumption might be wrong?\n2. What is one completely different approach?\n3. Is there a prerequisite step you missed?"@
}

/// Message that stops the model after too many failures.
pub open spec fn hard_stop_message() -> Seq<char> {
    "Stop. You're stuck. Go back to the original goal.\nAre you solving the right problem? List 3 alternative interpretations of what the user needs."@
}

/// The message that blocks the next call, if the counters call for one.
pub open spec fn block_text(v: ReflectView, cfg: Config) -> Option<Seq<char>> {
    if cfg.anti_stuck_enabled && v.same_tool_same_args_count >= 2 {
        Some(block_message())
    } else {
        None
    }
}

/// The message that makes the model reflect, if the counters call for one:
/// after `reflect_after_failures` failures of the same tool, or else after
/// `max_failures_before_hard_stop` failures in all.
pub open spec fn reflect_text(v: ReflectView, cfg: Config) -> Option<Seq<char>> {
    if !cfg.anti_stuck_enabled {
        None
    } else if v.consecutive_same_tool_failures >= cfg.reflect_after_failures {
        Some(
            reflect_message(
                match v.last_tool {
                    Some(t) => t,
                    None => "tool"@,
                },
                v.consecutive_same_tool_failures,
            ),
        )
    } else if v.total_failures >= cfg.max_failures_before_hard_stop {
        Some(hard_stop_message())
    } else {
        None
    }
}

/// The counters after a series of failed calls, each a tool and its arguments.
pub open spec fn after_failures(v: ReflectView, calls: Seq<(Seq<char>, Seq<char>)>) -> ReflectView
    decreases calls.len(),
{
    if calls.len() == 0 {
        v
    } else {
        after_attempt(after_failures(v, calls.drop_last()), calls.last().0, calls.last().1, false)
    }
}

/// Every failure counts once toward the total, whatever the tool.
pub proof fn law_failures_add_up(v: ReflectView, calls: Seq<(Seq<char>, Seq<char>)>)
    ensures
        after_failures(v, calls).total_failures == v.total_failures + calls.len(),
    decreases calls.len(),
{
    if calls.len() > 0 {
        law_failures_add_up(v, calls.drop_last());
    }
}

/// Three failures in a row of the same call, whatever came before, leave a
/// repeat count of at least two, which blocks the next call.
pub proof fn law_repeated_failures_block(v: ReflectView, tool: Seq<char>, args: Seq<char>)
    ensures
        after_attempt(
            after_attempt(after_attempt(v, tool, args, false), tool, args, false),
            tool,
            args,
            false,
        ).same_tool_same_args_count >= 2,
{
}

/// Two failures in a row of the same tool, whatever came before and with
/// whatever arguments, count at least two failures of that tool.
pub proof fn law_same_tool_failures(v: ReflectView, tool: Seq<char>, a1: Seq<char>, a2: Seq<char>)
    ensures
        after_attempt(after_attempt(v, tool, a1, false), tool, a2, false).consecutive_same_tool_failures
            >= 2,
        after_attempt(after_attempt(v, tool, a1, false), tool, a2, false).last_tool == Some(tool),
{
}

/// A failure with another tool or other arguments than the last failure
/// restarts the repeat count at zero, whatever came before.
pub proof fn law_new_call_restarts_repeats(v: ReflectView, tool: Seq<char>, args: Seq<char>)
    requires
        v.last_tool != Some(tool) || v.last_args != Some(args),
    ensures
        after_attempt(v, tool, args, false).same_tool_same_args_count == 0,
{
}

/// How many calls at the end of a list are the same as the last one.
pub open spec fn trailing_same(calls: Seq<(Seq<char>, Seq<char>)>) -> nat
    decreases calls.len(),
{
    if calls.len() == 0 {
        0
    } else if calls.len() >= 2 && calls[calls.len() - 2] == calls.last() {
        1 + trailing_same(calls.drop_last())
    } else {
        1
    }
}

/// From a clean state, after a list of failed calls the repeat count is the
/// number of identical calls (same tool, same arguments) at its end, less
/// one, and the last call is remembered.
pub proof fn law_repeats_count_trailing(calls: Seq<(Seq<char>, Seq<char>)>)
    requires
        calls.len() > 0,
    ensures
        after_failures(clean_view(), calls).same_tool_same_args_count == trailing_same(calls) - 1,
        after_failures(clean_view(), calls).last_tool == Some(calls.last().0),
        after_failures(clean_view(), calls).last_args == Some(calls.last().1),
    decreases calls.len(),
{
    let prev = calls.drop_last();
    if prev.len() == 0 {
        assert(after_failures(clean_view(), prev) == clean_view());
    } else {
        law_repeats_count_trailing(prev);
        assert(prev.last() == calls[calls.len() - 2]);
        let c = calls.last();
        let pl = prev.last();
        if pl == c {
        } else {
            assert(pl.0 != c.0 || pl.1 != c.1);
        }
    }
}

/// A success clears every counter, whatever came before.
pub proof fn law_success_clears(v: ReflectView, tool: Seq<char>, args: Seq<char>)
    ensures
        after_attempt(v, tool, args, true) == clean_view(),
{
}

impl View for ReflectState {
    type V = ReflectView;

    closed spec fn view(&self) -> ReflectView {
        ReflectView {
            consecutive_same_tool_failures: self.consecutive_same_tool_failures as nat,
            total_failures: self.total_failures as nat,
            last_tool: opt_view(self.last_tool),
            last_args: opt_view(self.last_args),
            same_tool_same_args_count: self.same_tool_same_args_count as nat,
        }
    }
}

impl ReflectState {
    /// Repeats of the same call never outnumber failures of that tool, which
    /// never outnumber all failures.
    #[verifier::type_invariant]
    spec fn counts_ordered(&self) -> bool {
        &&& self.same_tool_same_args_count <= self.consecutive_same_tool_failures
        &&& self.consecutive_same_tool_failures <= self.total_failures
    }

    /// A state with no failures.
    pub fn new() -> (s: Self)
        ensures
            s@ == clean_view(),
    {
        ReflectState {
            consecutive_same_tool_failures: 0,
            total_failures: 0,
            last_tool: None,
            last_args: None,
            same_tool_same_args_count: 0,
            reset_after_turn: false,
        }
    }

    /// Number of failures since the last success or reset.
    pub fn total_failures(&self) -> (r: u32)
        ensures
            r == self@.total_failures,
    {
        self.total_failures
    }

    /// Number of consecutive failures of the last tool.
    pub fn consecutive_same_tool_failures(&self) -> (r: u32)
        ensures
            r == self@.consecutive_same_tool_failures,
    {
        self.consecutive_same_tool_failures
    }

    /// Number of repeats of the last failed call with the same arguments.
    pub fn same_tool_same_args_count(&self) -> (r: u32)
        ensures
            r == self@.same_tool_same_args_count,
    {
        self.same_tool_same_args_count
    }

    /// Records a tool call attempt (see `after_attempt`).
    pub fn record_attempt(&mut self, tool: &str, args: &str, success: bool)
        requires
            old(self)@.total_failures < u32::MAX,
        ensures
            final(self)@ == after_attempt(old(self)@, tool@, args@, success),
    {
        proof {
            use_type_invariant(&*self);
        }
        if success {
            *self = ReflectState {
                consecutive_same_tool_failures: 0,
                total_failures: 0,
                last_tool: None,
                last_args: None,
                same_tool_same_args_count: 0,
                reset_after_turn: self.reset_after_turn,
            };
            return;
        }
        let is_same_tool = match &self.last_tool {
            Some(t) => str_eq(t.as_str(), tool),
            None => false,
        };
        let is_same_args = match &self.last_args {
            Some(a) => str_eq(a.as_str(), args),
            None => false,
        };
        let consecutive = if is_same_tool {
            self.consecutive_same_tool_failures + 1
        } else {
            1
        };
        let same = if is_same_tool && is_same_args {
            self.same_tool_same_args_count + 1
        } else {
            0
        };
        *self = ReflectState {
            consecutive_same_tool_failures: consecutive,
            total_failures: self.total_failures + 1,
            last_tool: Some(tool.to_owned()),
            last_args: Some(args.to_owned()),
            same_tool_same_args_count: same,
            reset_after_turn: self.reset_after_turn,
        };
    }

    /// A message that blocks the next call, when anti-stuck is on and the
    /// same call with the same arguments has failed three times in a row.
    pub fn should_block(&self, cfgs: &Config) -> (r: Option<String>)
        ensures
            opt_view(r) == block_text(self@, *cfgs),
    {
        if !cfgs.anti_stuck_enabled {
            return None;
        }
        if self.same_tool_same_args_count >= 2 {
            Some(
                "Do NOT call the same tool with the same arguments again. Try a different approach entirely.".to_owned(),
            )
        } else {
            None
        }
    }

    /// A message that makes the model reflect, when anti-stuck is on: after
    /// `reflect_after_failures` failures of the same tool, or else after
    /// `max_failures_before_hard_stop` failures in all.
    pub fn should_reflect(&self, cfgs: &Config) -> (r: Option<String>)
        ensures
            opt_view(r) == reflect_text(self@, *cfgs),
    {
        if !cfgs.anti_stuck_enabled {
            return None;
        }
        if self.consecutive_same_tool_failures >= cfgs.reflect_after_failures {
            let mut v: Vec<char> = Vec::new();
            push_str(&mut v, "You've called `");
            match &self.last_tool {
                Some(t) => push_str(&mut v, t.as_str()),
                None => push_str(&mut v, "tool"),
            }
            push_str(&mut v, "` ");
            push_decimal(&mut v, self.consecutive_same_tool_failures as u64);
            push_str(
                &mut v,
                " times and it failed each time. Before your next action, answer:\n1. What assumption might be wrong?\n2. What is one completely different approach?\n3. Is there a prerequisite step you missed?",
            );
            let ghost tool = match self@.last_tool {
                Some(t) => t,
                None => "tool"@,
            };
            assert(v@ =~= reflect_message(tool, self@.consecutive_same_tool_failures));
            Some(string_of(v.as_slice()))
        } else if self.total_failures >= cfgs.max_failures_before_hard_stop {
            Some(
                "Stop. You're stuck. Go back to the original goal.\nAre you solving the right problem? List 3 alternative interpretations of what the user needs.".to_owned(),
            )
        } else {
            None
        }
    }

    /// Clears the counters after a turn completes.
    pub fn reset(&mut self)
        ensures
            final(self)@ == clean_view(),
    {
        *self = ReflectState {
            consecutive_same_tool_failures: 0,
            total_failures: 0,
            last_tool: None,
            last_args: None,
            same_tool_same_args_count: 0,
            reset_after_turn: self.reset_after_turn,
        };
    }
}

} // verus!

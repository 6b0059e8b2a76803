//! The decisions of one conversation turn: what happens to the session and
//! what the user is told at each step, between the streamed reply of the
//! model, the tool calls it asks for and the user's approvals. The program
//! around the library streams, runs the tools and waits for the user.
use vstd::prelude::*;
use crate::client::StreamEvent;
use crate::config::Config;
use crate::error::RelayError;
use crate::message::{last_user, Message, Session, ToolCall, ToolCallFunction};
use crate::mode::{blocked_in_plan, changes_system, AgentMode, ModeState};
use crate::reflect::{after_attempt, block_text, reflect_text, ReflectState, ReflectView};
use crate::text::{chars_of, decimal, join, join_strings, push_decimal, push_str, string_of, take_chars};
use crate::tools::{active_tool_defs, defs_view, full_defs, plan_defs, ToolDef};

verus! {

/// What the user interface is told during a turn.
#[derive(Debug, Clone)]
pub enum TurnNotice {
    Content(String),
    Thinking(String),
    ToolCallProposed { name: String, args: String, display: String },
    ToolCallExecuting { name: String, args: String },
    ToolCallResult { display: String, success: bool },
    Warning(String),
    Error(String),
    Done,
}

/// The view of a notice.
pub enum NoticeView {
    Content(Seq<char>),
    Thinking(Seq<char>),
    ToolCallProposed { name: Seq<char>, args: Seq<char>, display: Seq<char> },
    ToolCallExecuting { name: Seq<char>, args: Seq<char> },
    ToolCallResult { display: Seq<char>, success: bool },
    Warning(Seq<char>),
    Error(Seq<char>),
    Done,
}

/// The view of a notice.
pub open spec fn notice_view(n: TurnNotice) -> NoticeView {
    match n {
        TurnNotice::Content(t) => NoticeView::Content(t@),
        TurnNotice::Thinking(t) => NoticeView::Thinking(t@),
        TurnNotice::ToolCallProposed { name, args, display } => NoticeView::ToolCallProposed {
            name: name@,
            args: args@,
            display: display@,
        },
        TurnNotice::ToolCallExecuting { name, args } => NoticeView::ToolCallExecuting {
            name: name@,
            args: args@,
        },
        TurnNotice::ToolCallResult { display, success } => NoticeView::ToolCallResult {
            display: display@,
            success,
        },
        TurnNotice::Warning(w) => NoticeView::Warning(w@),
        TurnNotice::Error(e) => NoticeView::Error(e@),
        TurnNotice::Done => NoticeView::Done,
    }
}

/// The views of notices, in order.
pub open spec fn notices_view(ns: Seq<TurnNotice>) -> Seq<NoticeView> {
    ns.map_values(|n: TurnNotice| notice_view(n))
}

/// Warning when a repeated call is blocked.
pub open spec fn blocked_warning() -> Seq<char> {
    "Call blocked: repeating same tool+args"@
}

/// Warning when reflection is requested.
pub open spec fn reflection_warning() -> Seq<char> {
    "Reflection requested by anti-stuck system"@
}

/// What preparing a round does: the conversation `s0` is made to fit `max`
/// tokens (see `fit_context`), then the block message and the reflection
/// message, when the counters `v` call for them, are added as system
/// messages, and the user is warned of each.
pub open spec fn prepared(
    cfg: Config,
    v: ReflectView,
    s0: Seq<Message>,
    max: nat,
    s1: Seq<Message>,
    notes: Seq<NoticeView>,
) -> bool {
    let fitted = crate::message::fit_context(s0, max);
    let block = block_text(v, cfg);
    let reflect = reflect_text(v, cfg);
    let msgs = (match block {
        Some(t) => seq![t],
        None => Seq::<Seq<char>>::empty(),
    }) + (match reflect {
        Some(t) => seq![t],
        None => Seq::<Seq<char>>::empty(),
    });
    let warns = (if block is Some {
        seq![NoticeView::Warning(blocked_warning())]
    } else {
        Seq::<NoticeView>::empty()
    }) + (if reflect is Some {
        seq![NoticeView::Warning(reflection_warning())]
    } else {
        Seq::<NoticeView>::empty()
    });
    &&& s1.len() == fitted.len() + msgs.len()
    &&& s1.take(fitted.len() as int) == fitted
    &&& forall|i: int|
        0 <= i < msgs.len() ==> (#[trigger] s1[fitted.len() + i] matches Message::System { content }
            && content@ == msgs[i])
    &&& notes == warns
}

/// Makes the session fit its budget and injects the anti-stuck messages
/// before a model call; returns the warnings for the user (see `prepared`).
pub fn prepare_round(cfg: &Config, session: &mut Session, reflect: &ReflectState) -> (r: Vec<TurnNotice>)
    ensures
        prepared(
            *cfg,
            reflect@,
            old(session).messages@,
            old(session).max_tokens as nat,
            final(session).messages@,
            notices_view(r@),
        ),
        final(session).system_prompt == old(session).system_prompt,
        final(session).max_tokens == old(session).max_tokens,
{
    session.ensure_context_fit();
    let ghost fitted = session.messages@;
    let mut notices: Vec<TurnNotice> = Vec::new();
    match reflect.should_block(cfg) {
        Some(msg) => {
            session.inject_system_message(msg.as_str());
            notices.push(TurnNotice::Warning("Call blocked: repeating same tool+args".to_owned()));
        },
        None => {},
    }
    let ghost mid = session.messages@;
    let ghost mid_notes = notices@;
    match reflect.should_reflect(cfg) {
        Some(msg) => {
            session.inject_system_message(msg.as_str());
            notices.push(
                TurnNotice::Warning("Reflection requested by anti-stuck system".to_owned()),
            );
        },
        None => {},
    }
    proof {
        let block = block_text(reflect@, *cfg);
        let rt = reflect_text(reflect@, *cfg);
        let msgs = (match block {
            Some(t) => seq![t],
            None => Seq::<Seq<char>>::empty(),
        }) + (match rt {
            Some(t) => seq![t],
            None => Seq::<Seq<char>>::empty(),
        });
        let n = fitted.len() as int;
        let s1 = session.messages@;
        assert(s1.take(n) =~= fitted);
        assert forall|i: int| 0 <= i < msgs.len() implies (#[trigger] s1[n + i] matches Message::System {
            content,
        } && content@ == msgs[i]) by {
            if block is Some && i == 0 {
                assert(mid[n] == mid.last());
                if rt is Some {
                    assert(s1[n] == s1.drop_last()[n]);
                }
            } else {
                assert(s1[n + i] == s1.last());
            }
        }
        assert(notices_view(notices@) =~= (if block is Some {
            seq![NoticeView::Warning(blocked_warning())]
        } else {
            Seq::<NoticeView>::empty()
        }) + (if rt is Some {
            seq![NoticeView::Warning(reflection_warning())]
        } else {
            Seq::<NoticeView>::empty()
        }));
    }
    notices
}

/// What a streamed reply has brought so far.
pub struct RoundCollector {
    pub content_chunks: Vec<String>,
    pub reasoning_chunks: Vec<String>,
    pub tool_calls: Vec<ToolCall>,
    pub usage_total: Option<u32>,
    pub got_events: bool,
}

/// What the turn does after one stream event.
pub enum EventStep {
    /// Keep reading; tell the user this, if anything.
    Continue(Option<TurnNotice>),
    /// The turn is over: tell the user these.
    Stop(Vec<TurnNotice>),
}

/// The view of a tool call: id, type, name and arguments.
pub open spec fn call_view(tc: ToolCall) -> (Seq<char>, Seq<char>, Seq<char>, Seq<char>) {
    (tc.id@, tc.type_@, tc.function.name@, tc.function.arguments@)
}

/// What taking one stream event does (see `RoundCollector::on_event`):
/// `c0` and `s0` are the collector and the conversation before, `c1` and
/// `s1` after, `r` the step.
pub open spec fn took_event(
    c0: RoundCollector,
    c1: RoundCollector,
    event: Result<StreamEvent, RelayError>,
    s0: Seq<Message>,
    s1: Seq<Message>,
    r: EventStep,
) -> bool {
    &&& c1.got_events
    &&& !(event matches Ok(StreamEvent::Content(_))) ==> c1.content_chunks@ == c0.content_chunks@
    &&& !(event matches Ok(StreamEvent::Reasoning(_))) ==> c1.reasoning_chunks@ == c0.reasoning_chunks@
    &&& !(event matches Ok(StreamEvent::ToolCall { .. })) ==> c1.tool_calls@ == c0.tool_calls@
    &&& !(event matches Ok(StreamEvent::Usage { .. })) ==> c1.usage_total == c0.usage_total
    &&& match event {
        Ok(StreamEvent::Content(t)) => {
            &&& c1.content_chunks@ == c0.content_chunks@.push(t)
            &&& r matches EventStep::Continue(Some(TurnNotice::Content(x))) && x == t
            &&& s1 == s0
        },
        Ok(StreamEvent::Reasoning(t)) => {
            &&& c1.reasoning_chunks@ == c0.reasoning_chunks@.push(t)
            &&& r matches EventStep::Continue(Some(TurnNotice::Thinking(x))) && x == t
            &&& s1 == s0
        },
        Ok(StreamEvent::ToolCall { id, name, args }) => {
            &&& c1.tool_calls@.len() == c0.tool_calls@.len() + 1
            &&& c1.tool_calls@.drop_last() == c0.tool_calls@
            &&& call_view(c1.tool_calls@.last()) == (id@, "function"@, name@, args@)
            &&& r matches EventStep::Continue(None)
            &&& s1 == s0
        },
        Ok(StreamEvent::Usage { total_tokens, .. }) => {
            &&& c1.usage_total == Some(total_tokens)
            &&& r matches EventStep::Continue(None)
            &&& s1 == s0
        },
        Ok(StreamEvent::Warning(m)) => {
            &&& r matches EventStep::Continue(Some(TurnNotice::Warning(x))) && x == m
            &&& s1 == s0
        },
        Ok(StreamEvent::Error(m)) => {
            &&& r matches EventStep::Stop(ns) && ns@.len() == 2 && (ns@[0] matches TurnNotice::Error(x)
                && x == m) && ns@[1] is Done
            &&& match last_user(s0) {
                Some(k) => s1 == s0.take(k),
                None => s1 == s0,
            }
        },
        Err(e) => {
            &&& r matches EventStep::Stop(ns) && ns@.len() == 2 && (ns@[0] matches TurnNotice::Error(x)
                && x@ == e.display()) && ns@[1] is Done
            &&& s1 == s0
        },
    }
}

impl RoundCollector {
    /// Nothing received yet.
    pub fn new() -> (r: Self)
        ensures
            r.content_chunks@.len() == 0,
            r.reasoning_chunks@.len() == 0,
            r.tool_calls@.len() == 0,
            r.usage_total is None,
            !r.got_events,
    {
        RoundCollector {
            content_chunks: Vec::new(),
            reasoning_chunks: Vec::new(),
            tool_calls: Vec::new(),
            usage_total: None,
            got_events: false,
        }
    }

    /// Takes one event of the stream. Text is kept and shown; a tool call
    /// is kept; usage is kept; a warning is shown. An error reported by the
    /// model drops the last user message and ends the turn; a failure of the
    /// stream ends the turn and keeps the session.
    pub fn on_event(&mut self, event: Result<StreamEvent, RelayError>, session: &mut Session) -> (r:
        EventStep)
        ensures
            took_event(*old(self), *final(self), event, old(session).messages@, final(session).messages@, r),
            final(session).system_prompt == old(session).system_prompt,
            final(session).max_tokens == old(session).max_tokens,
    {
        self.got_events = true;
        match event {
            Ok(StreamEvent::Content(text)) => {
                self.content_chunks.push(text.clone());
                EventStep::Continue(Some(TurnNotice::Content(text)))
            },
            Ok(StreamEvent::Reasoning(text)) => {
                self.reasoning_chunks.push(text.clone());
                EventStep::Continue(Some(TurnNotice::Thinking(text)))
            },
            Ok(StreamEvent::ToolCall { id, name, args }) => {
                self.tool_calls.push(
                    ToolCall {
                        id,
                        type_: "function".to_owned(),
                        function: ToolCallFunction { name, arguments: args },
                    },
                );
                assert(self.tool_calls@.drop_last() =~= old(self).tool_calls@);
                EventStep::Continue(None)
            },
            Ok(StreamEvent::Usage { total_tokens, .. }) => {
                self.usage_total = Some(total_tokens);
                EventStep::Continue(None)
            },
            Ok(StreamEvent::Warning(msg)) => EventStep::Continue(Some(TurnNotice::Warning(msg))),
            Ok(StreamEvent::Error(msg)) => {
                session.pop_last_user_message();
                EventStep::Stop(vec![TurnNotice::Error(msg), TurnNotice::Done])
            },
            Err(e) => EventStep::Stop(vec![TurnNotice::Error(e.to_message()), TurnNotice::Done]),
        }
    }

    /// When the stream brought nothing at all: the notices that end the turn.
    pub fn no_response(&self) -> (r: Option<Vec<TurnNotice>>)
        ensures
            self.got_events ==> r is None,
            !self.got_events ==> (r matches Some(ns) && ns@.len() == 2 && (ns@[0] matches TurnNotice::Error(
                m,
            ) && m@ == "No response from API"@) && ns@[1] is Done),
    {
        if self.got_events {
            None
        } else {
            Some(vec![TurnNotice::Error("No response from API".to_owned()), TurnNotice::Done])
        }
    }
}

/// The text of received chunks, in order.
pub open spec fn chunks_text(chunks: Seq<String>) -> Seq<char> {
    join(chunks.map_values(|c: String| c@), Seq::empty())
}

/// How a round ends once the reply has been received.
pub enum RoundEnd {
    /// The reply was the final answer; the turn is over.
    Final,
    /// The reply asks for these tool calls.
    Tools(Vec<ToolCall>),
}

fn joined_chunks(chunks: &Vec<String>) -> (r: String)
    ensures
        r@ == chunks_text(chunks@),
{
    let r = join_strings(chunks, "");
    proof {
        reveal_strlit("");
        assert(chunks.deep_view() =~= chunks@.map_values(|c: String| c@));
        assert(""@ =~= Seq::<char>::empty());
    }
    r
}

/// The reply recorded: `s1` is `s0` and one assistant message. Without tool
/// calls it holds all the content (and the reasoning, if any came); with
/// tool calls, the content (if any came), the reasoning (if any) and the
/// calls.
pub open spec fn committed(c: RoundCollector, s0: Seq<Message>, s1: Seq<Message>) -> bool {
    let m = s1.last();
    let content = chunks_text(c.content_chunks@);
    let reasoning = chunks_text(c.reasoning_chunks@);
    let has_reasoning = c.reasoning_chunks@.len() > 0;
    &&& s1.len() == s0.len() + 1
    &&& s1.drop_last() == s0
    &&& m matches Message::Assistant { content: mc, reasoning_content: rc, tool_calls: t }
    &&& (has_reasoning <==> rc is Some)
    &&& (rc matches Some(x) ==> x@ == reasoning)
    &&& if c.tool_calls@.len() == 0 {
        &&& (mc matches Some(x) && x@ == content)
        &&& t is None
    } else {
        &&& (c.content_chunks@.len() > 0 <==> mc is Some)
        &&& (mc matches Some(x) ==> x@ == content)
        &&& (t matches Some(v) && v@ == c.tool_calls@)
    }
}

/// Records the reply in the session. Without tool calls it is the final
/// answer: the assistant message holds all the content (and the reasoning,
/// if any came). With tool calls, the assistant message holds the content
/// (if any came), the reasoning (if any) and the calls, which are returned.
pub fn commit_round(collector: RoundCollector, session: &mut Session) -> (r: RoundEnd)
    ensures
        committed(collector, old(session).messages@, final(session).messages@),
        collector.tool_calls@.len() == 0 ==> r is Final,
        collector.tool_calls@.len() > 0 ==> (r matches RoundEnd::Tools(calls) && calls@
            == collector.tool_calls@),
        final(session).system_prompt == old(session).system_prompt,
        final(session).max_tokens == old(session).max_tokens,
{
    let reasoning = if collector.reasoning_chunks.len() == 0 {
        None
    } else {
        Some(joined_chunks(&collector.reasoning_chunks))
    };
    let reasoning_ref: Option<&str> = match &reasoning {
        Some(s) => Some(s.as_str()),
        None => None,
    };
    if collector.tool_calls.len() == 0 {
        let content = joined_chunks(&collector.content_chunks);
        session.add_assistant_message(Some(content.as_str()), reasoning_ref, None);
        return RoundEnd::Final;
    }
    let content = if collector.content_chunks.len() == 0 {
        None
    } else {
        Some(joined_chunks(&collector.content_chunks))
    };
    let content_ref: Option<&str> = match &content {
        Some(s) => Some(s.as_str()),
        None => None,
    };
    let calls = collector.tool_calls;
    let kept = clone_calls(&calls);
    session.add_assistant_message(content_ref, reasoning_ref, Some(kept));
    RoundEnd::Tools(calls)
}

/// A copy of a tool call.
fn copy_call(tc: &ToolCall) -> (r: ToolCall)
    ensures
        r == *tc,
{
    ToolCall {
        id: tc.id.clone(),
        type_: tc.type_.clone(),
        function: ToolCallFunction {
            name: tc.function.name.clone(),
            arguments: tc.function.arguments.clone(),
        },
    }
}

/// A copy of the tool calls.
fn clone_calls(calls: &Vec<ToolCall>) -> (r: Vec<ToolCall>)
    ensures
        r@ == calls@,
{
    let mut r: Vec<ToolCall> = Vec::new();
    let mut i: usize = 0;
    while i < calls.len()
        invariant
            i <= calls@.len(),
            r@ == calls@.take(i as int),
        decreases calls@.len() - i,
    {
        let tc = &calls[i];
        let copy = ToolCall {
            id: tc.id.clone(),
            type_: tc.type_.clone(),
            function: ToolCallFunction {
                name: tc.function.name.clone(),
                arguments: tc.function.arguments.clone(),
            },
        };
        assert(copy == tc);
        r.push(copy);
        assert(r@ =~= calls@.take(i + 1));
        i = i + 1;
    }
    assert(calls@.take(calls@.len() as int) =~= calls@);
    r
}

/// What to do with one requested tool call.
pub enum ToolGate {
    /// The mode forbids it: warn and skip it.
    Blocked(TurnNotice),
    /// Ask the user first with this proposal.
    Confirm(TurnNotice),
    /// Run it.
    Run,
}

/// Whether a call waits for the user's approval: in Confirm mode the calls
/// of `write` and `shell`; in Plan mode once a plan exists, every call.
pub open spec fn needs_approval(mode: &ModeState, name: Seq<char>) -> bool {
    match mode.current {
        AgentMode::Confirm => changes_system(name),
        AgentMode::Plan => mode.plan_content is Some,
        AgentMode::Auto => false,
    }
}

/// The first `n` characters of `s`.
pub open spec fn prefix_chars(s: Seq<char>, n: nat) -> Seq<char> {
    s.take(if n < s.len() { n as int } else { s.len() as int })
}

/// What each mode does with a call: Auto runs every call as it comes;
/// Confirm asks before every `shell` and `write` call and blocks none; Plan
/// blocks `shell`, `write` and every tool but `read`, `glob`, `grep` and
/// `use_skill`.
pub proof fn law_gate_by_mode(mode: ModeState, name: Seq<char>)
    ensures
        mode.current == AgentMode::Auto ==> !needs_approval(&mode, name) && !blocked_call(mode, name),
        mode.current == AgentMode::Confirm ==> needs_approval(&mode, "shell"@) && needs_approval(
            &mode,
            "write"@,
        ) && !blocked_call(mode, name),
        mode.current == AgentMode::Plan ==> blocked_call(mode, "shell"@) && blocked_call(mode, "write"@)
            && !blocked_call(mode, "read"@) && !blocked_call(mode, "glob"@) && !blocked_call(
            mode,
            "grep"@,
        ) && !blocked_call(mode, "use_skill"@),
{
    reveal_strlit("shell");
    reveal_strlit("write");
    reveal_strlit("read");
    reveal_strlit("glob");
    reveal_strlit("grep");
    reveal_strlit("use_skill");
    assert("shell"@.len() == 5 && "write"@.len() == 5 && "use_skill"@.len() == 9);
    assert("read"@.len() == 4 && "glob"@.len() == 4 && "grep"@.len() == 4);
    assert(!crate::mode::allowed_in_plan("shell"@));
    assert(!crate::mode::allowed_in_plan("write"@));
}

/// Decides about a requested call (see `needs_approval`); the proposal
/// shows the name and the first 120 characters of the arguments.
pub fn gate_tool(mode: &ModeState, name: &str, args: &str) -> (r: ToolGate)
    ensures
        mode.current == AgentMode::Plan && blocked_in_plan(name@) ==> (r matches ToolGate::Blocked(
            TurnNotice::Warning(w),
        ) && w@ == name@ + " is not allowed in Plan mode"@),
        !(mode.current == AgentMode::Plan && blocked_in_plan(name@)) && needs_approval(mode, name@)
            ==> (r matches ToolGate::Confirm(TurnNotice::ToolCallProposed { name: n, args: a, display: d })
            && n@ == name@ && a@ == args@ && d@ == name@ + "("@ + prefix_chars(args@, 120) + ")"@),
        !(mode.current == AgentMode::Plan && blocked_in_plan(name@)) && !needs_approval(mode, name@)
            ==> r is Run,
        mode.current == AgentMode::Confirm && (name@ == "shell"@ || name@ == "write"@) ==> r is Confirm,
        mode.current == AgentMode::Plan && (name@ == "shell"@ || name@ == "write"@) ==> r is Blocked,
        mode.current == AgentMode::Auto ==> r is Run,
{
    proof {
        law_gate_by_mode(*mode, name@);
    }
    if mode.is_tool_blocked(name) {
        let mut w = chars_of(name);
        push_str(&mut w, " is not allowed in Plan mode");
        return ToolGate::Blocked(TurnNotice::Warning(string_of(w.as_slice())));
    }
    let approval = match mode.current {
        AgentMode::Confirm => crate::text::str_eq(name, "shell") || crate::text::str_eq(name, "write"),
        AgentMode::Plan => mode.plan_content.is_some(),
        AgentMode::Auto => false,
    };
    if approval {
        let mut d = chars_of(name);
        push_str(&mut d, "(");
        let shown = take_chars(args, 120);
        push_str(&mut d, shown.as_str());
        push_str(&mut d, ")");
        ToolGate::Confirm(
            TurnNotice::ToolCallProposed {
                name: name.to_owned(),
                args: args.to_owned(),
                display: string_of(d.as_slice()),
            },
        )
    } else {
        ToolGate::Run
    }
}

/// The user's answer to a proposed call.
#[derive(Debug, Clone, Copy, PartialEq, Eq, Structural)]
pub enum Approval {
    Approved,
    Rejected,
    /// The channel of answers is closed.
    Closed,
}

/// The message that tells the model a call was rejected.
pub open spec fn rejection_message(name: Seq<char>) -> Seq<char> {
    "The user rejected the call to "@ + name
        + "(...). Do NOT retry the same call. Explain why or try a different approach."@
}

/// Applies the user's answer: an approval lets the call run (`None`); a
/// rejection or a closed channel tells the model and returns the warning
/// for the user.
pub fn on_approval(answer: Approval, name: &str, session: &mut Session) -> (r: Option<TurnNotice>)
    ensures
        answer == Approval::Approved ==> r is None && final(session).messages@ == old(
            session,
        ).messages@,
        (answer == Approval::Rejected || answer == Approval::Closed) ==> (r matches Some(
            TurnNotice::Warning(w),
        ) && w@ == "User rejected: "@ + name@) && final(session).messages@.len() == old(
            session,
        ).messages@.len() + 1 && final(session).messages@.drop_last() == old(session).messages@ && (
        final(session).messages@.last() matches Message::System { content } && content@
            == rejection_message(name@)),
        final(session).system_prompt == old(session).system_prompt,
        final(session).max_tokens == old(session).max_tokens,
{
    match answer {
        Approval::Approved => None,
        Approval::Rejected | Approval::Closed => {
            let mut m = chars_of("The user rejected the call to ");
            push_str(&mut m, name);
            push_str(
                &mut m,
                "(...). Do NOT retry the same call. Explain why or try a different approach.",
            );
            session.inject_system_message(string_of(m.as_slice()).as_str());
            let mut w = chars_of("User rejected: ");
            push_str(&mut w, name);
            Some(TurnNotice::Warning(string_of(w.as_slice())))
        },
    }
}

/// The notice that a call starts: its name and the first 120 characters
/// of its arguments.
pub fn executing_notice(name: &str, args: &str) -> (r: TurnNotice)
    ensures
        r matches TurnNotice::ToolCallExecuting { name: n, args: a } && n@ == name@ && a@
            == prefix_chars(args@, 120),
{
    TurnNotice::ToolCallExecuting { name: name.to_owned(), args: take_chars(args, 120) }
}

/// How a tool's output is shown: the first 500 characters, with `...` when
/// there was more.
pub open spec fn output_display(out: Seq<char>) -> Seq<char> {
    if out.len() > 500 {
        out.take(500) + "..."@
    } else {
        out
    }
}

/// Records the outcome of a call: the session gets a tool result for the
/// call's id (the output, or `error: ` and the message), the anti-stuck
/// counters count a success or a failure, and the user is shown the
/// outcome.
pub fn record_tool_outcome(
    session: &mut Session,
    reflect: &mut ReflectState,
    call: &ToolCall,
    result: &Result<String, String>,
) -> (r: TurnNotice)
    requires
        old(reflect)@.total_failures < u32::MAX,
    ensures
        final(session).messages@.len() == old(session).messages@.len() + 1,
        final(session).messages@.drop_last() == old(session).messages@,
        final(session).system_prompt == old(session).system_prompt,
        final(session).max_tokens == old(session).max_tokens,
        final(session).messages@.last() matches Message::Tool { tool_call_id, content }
            && tool_call_id@ == call.id@ && content@ == match result {
            Ok(out) => out@,
            Err(e) => "error: "@ + e@,
        },
        final(reflect)@ == after_attempt(
            old(reflect)@,
            call.function.name@,
            call.function.arguments@,
            result is Ok,
        ),
        match result {
            Ok(out) => r matches TurnNotice::ToolCallResult { display, success } && success
                && display@ == output_display(out@),
            Err(e) => r matches TurnNotice::ToolCallResult { display, success } && !success
                && display@ == "Error: "@ + e@,
        },
{
    let name = call.function.name.as_str();
    let args = call.function.arguments.as_str();
    match result {
        Ok(output) => {
            let shown = take_chars(output.as_str(), 500);
            let full = chars_of(output.as_str());
            let mut d = chars_of(shown.as_str());
            if d.len() < full.len() {
                push_str(&mut d, "...");
            }
            session.add_tool_result(call.id.as_str(), output.as_str());
            reflect.record_attempt(name, args, true);
            TurnNotice::ToolCallResult { display: string_of(d.as_slice()), success: true }
        },
        Err(e) => {
            let mut d = chars_of("Error: ");
            push_str(&mut d, e.as_str());
            let mut stored = chars_of("error: ");
            push_str(&mut stored, e.as_str());
            session.add_tool_result(call.id.as_str(), string_of(stored.as_slice()).as_str());
            reflect.record_attempt(name, args, false);
            TurnNotice::ToolCallResult { display: string_of(d.as_slice()), success: false }
        },
    }
}

/// Ends a round of tool calls: the tool history is compressed when the
/// settings ask for it.
pub fn end_round(cfg: &Config, session: &mut Session)
    ensures
        cfg.compress_tool_history ==> crate::message::compressed(
            old(session).messages@,
            final(session).messages@,
        ),
        !cfg.compress_tool_history ==> final(session).messages@ == old(session).messages@,
        final(session).system_prompt == old(session).system_prompt,
        final(session).max_tokens == old(session).max_tokens,
{
    if cfg.compress_tool_history {
        session.compress_old_tool_results();
    }
}

/// Ends a turn that used up its rounds: warns, drops the last user message
/// and everything after it, and finishes.
pub fn exhausted_turns(cfg: &Config, session: &mut Session) -> (r: Vec<TurnNotice>)
    ensures
        match last_user(old(session).messages@) {
            Some(k) => final(session).messages@ == old(session).messages@.take(k),
            None => final(session).messages@ == old(session).messages@,
        },
        final(session).system_prompt == old(session).system_prompt,
        final(session).max_tokens == old(session).max_tokens,
        r@.len() == 2,
        r@[0] matches TurnNotice::Warning(w) && w@ == "Reached max "@ + decimal(
            cfg.max_tool_turns as nat,
        ) + " tool turns."@,
        r@[1] is Done,
{
    let mut w = chars_of("Reached max ");
    push_decimal(&mut w, cfg.max_tool_turns as u64);
    push_str(&mut w, " tool turns.");
    session.pop_last_user_message();
    vec![TurnNotice::Warning(string_of(w.as_slice())), TurnNotice::Done]
}

// ------------------------------------------------------------------
// The turn as a whole
// ------------------------------------------------------------------

/// Whether the mode forbids a call outright: Plan mode, for `shell` and
/// `write`.
pub open spec fn blocked_call(mode: ModeState, name: Seq<char>) -> bool {
    mode.current == AgentMode::Plan && blocked_in_plan(name)
}

/// The first call from `i` on that the mode does not forbid; the number of
/// calls when there is none.
pub open spec fn first_open(mode: ModeState, calls: Seq<ToolCall>, i: int) -> int
    decreases calls.len() - i,
{
    if i < 0 || i >= calls.len() {
        calls.len() as int
    } else if blocked_call(mode, calls[i].function.name@) {
        first_open(mode, calls, i + 1)
    } else {
        i
    }
}

/// `first_open` finds a call the mode allows, after only forbidden ones.
pub proof fn lemma_first_open(mode: ModeState, calls: Seq<ToolCall>, i: int)
    requires
        0 <= i <= calls.len(),
    ensures
        i <= first_open(mode, calls, i) <= calls.len(),
        first_open(mode, calls, i) < calls.len() ==> !blocked_call(
            mode,
            calls[first_open(mode, calls, i)].function.name@,
        ),
    decreases calls.len() - i,
{
    if i < calls.len() && blocked_call(mode, calls[i].function.name@) {
        lemma_first_open(mode, calls, i + 1);
    }
}

/// The warnings for the forbidden calls `from..to`.
pub open spec fn skip_notes(calls: Seq<ToolCall>, from: int, to: int) -> Seq<NoticeView> {
    Seq::new(
        (to - from) as nat,
        |j: int| NoticeView::Warning(calls[from + j].function.name@ + " is not allowed in Plan mode"@),
    )
}

/// The proposal shown before a call that waits for approval.
pub open spec fn proposal_view(c: ToolCall) -> NoticeView {
    NoticeView::ToolCallProposed {
        name: c.function.name@,
        args: c.function.arguments@,
        display: c.function.name@ + "("@ + prefix_chars(c.function.arguments@, 120) + ")"@,
    }
}

/// The call with other arguments, the same id and name.
pub open spec fn edited(c: ToolCall, arguments: String) -> ToolCall {
    ToolCall {
        id: c.id,
        type_: c.type_,
        function: ToolCallFunction { name: c.function.name, arguments },
    }
}

/// The notice that a call starts.
pub open spec fn executing_view(c: ToolCall) -> NoticeView {
    NoticeView::ToolCallExecuting {
        name: c.function.name@,
        args: prefix_chars(c.function.arguments@, 120),
    }
}

/// Where a turn stands, and which call the program makes next.
#[derive(Debug, Clone, Copy, PartialEq, Eq, Structural)]
pub enum TurnPhase {
    /// A round is to start: `start_round`.
    Ready,
    /// The reply streams in: `on_stream_event`, then `on_stream_end`.
    Streaming,
    /// The next tool call is to be looked at: `next_call`.
    Choosing,
    /// The user is asked about a call: `on_approval`.
    Approving,
    /// A call runs: `on_tool_result`.
    Running,
    /// The turn is over.
    Finished,
}

/// What the program does next for a turn.
pub enum TurnAction {
    /// Send the conversation to the model, offering these tools, and report
    /// the reply's events.
    Stream(Vec<ToolDef>),
    /// Ask the user about the proposed call.
    AskApproval,
    /// Run this call and report its result.
    RunTool(ToolCall),
    /// Look at the next call.
    NextCall,
    /// Start the next round.
    NextRound,
    /// The turn is over.
    Finished,
}

/// Whether the notices of a step close the turn exactly when it ends: no
/// `Done` comes before the last notice, and the last is `Done` exactly when
/// the turn ends. So a turn tells the user `Done` once, last.
pub open spec fn done_once_last(ns: Seq<NoticeView>, ends: bool) -> bool {
    &&& forall|i: int| 0 <= i < ns.len() - 1 ==> !(#[trigger] ns[i] is Done)
    &&& ends <==> (ns.len() > 0 && ns.last() is Done)
}

/// The notices of the steps of a turn, in order, of which only the last
/// ends the turn, hold `Done` once, as the last notice.
pub proof fn law_done_once_per_turn(steps: Seq<Seq<NoticeView>>)
    requires
        steps.len() > 0,
        forall|k: int|
            0 <= k < steps.len() ==> done_once_last(#[trigger] steps[k], k == steps.len() - 1),
    ensures
        steps.flatten().len() > 0,
        steps.flatten().last() is Done,
        forall|i: int| 0 <= i < steps.flatten().len() - 1 ==> !(#[trigger] steps.flatten()[i] is Done),
    decreases steps.len(),
{
    let first = steps[0];
    let rest = steps.drop_first();
    assert(done_once_last(steps[0], steps.len() == 1));
    if steps.len() == 1 {
        assert(rest.flatten() =~= Seq::<NoticeView>::empty());
        assert(steps.flatten() =~= first);
    } else {
        assert forall|k: int| 0 <= k < rest.len() implies done_once_last(
            #[trigger] rest[k],
            k == rest.len() - 1,
        ) by {
            assert(rest[k] == steps[k + 1]);
        }
        law_done_once_per_turn(rest);
        let r = rest.flatten();
        let all = steps.flatten();
        assert(all =~= first + r);
        assert forall|i: int| 0 <= i < all.len() - 1 implies !(#[trigger] all[i] is Done) by {
            if i < first.len() {
                assert(all[i] == first[i]);
                if i == first.len() - 1 {
                    assert(first.last() == first[i]);
                }
            } else {
                assert(all[i] == r[i - first.len()]);
            }
        }
        assert(all.last() == r.last());
    }
}

/// What a step of a turn tells the user, and what comes next.
pub struct TurnStep {
    pub notices: Vec<TurnNotice>,
    pub action: TurnAction,
}

/// The state of one turn: rounds of a streamed reply followed by the tool
/// calls it asks for.
pub struct TurnDriver {
    pub phase: TurnPhase,
    /// Rounds started.
    pub rounds: u32,
    pub collector: RoundCollector,
    /// The calls of the current round, and the next one to look at.
    pub calls: Vec<ToolCall>,
    pub next: usize,
    pub reflect: ReflectState,
}

impl TurnDriver {
    /// Whether the driver is in the phase that the action leads to, so that
    /// the call the action names can be made.
    pub open spec fn ready_for(&self, a: TurnAction) -> bool {
        &&& self.next <= self.calls@.len()
        &&& match a {
            TurnAction::Stream(_) => self.phase == TurnPhase::Streaming,
            TurnAction::AskApproval => self.phase == TurnPhase::Approving && self.next < self.calls@.len(),
            TurnAction::RunTool(_) => self.phase == TurnPhase::Running && self.next < self.calls@.len(),
            TurnAction::NextCall => self.phase == TurnPhase::Choosing,
            TurnAction::NextRound => self.phase == TurnPhase::Ready,
            TurnAction::Finished => self.phase == TurnPhase::Finished,
        }
    }
}

impl TurnDriver {
    /// A turn that has not started.
    pub fn new() -> (r: Self)
        ensures
            r.ready_for(TurnAction::NextRound),
            r.phase == TurnPhase::Ready,
            r.rounds == 0,
            r.calls@.len() == 0,
            r.next == 0,
            r.collector.content_chunks@.len() == 0,
            r.collector.reasoning_chunks@.len() == 0,
            r.collector.tool_calls@.len() == 0,
            r.collector.usage_total is None,
            !r.collector.got_events,
            r.reflect@ == crate::reflect::clean_view(),
    {
        TurnDriver {
            phase: TurnPhase::Ready,
            rounds: 0,
            collector: RoundCollector::new(),
            calls: Vec::new(),
            next: 0,
            reflect: ReflectState::new(),
        }
    }

    /// Starts a round: once `max_tool_turns` rounds have run, the turn ends
    /// (see `exhausted_turns`); otherwise the conversation is prepared (see
    /// `prepared`) and the reply is to be streamed with the mode's tools.
    pub fn start_round(&mut self, cfg: &Config, session: &mut Session, mode: &ModeState) -> (r: TurnStep)
        requires
            old(self).phase == TurnPhase::Ready,
            old(self).next <= old(self).calls@.len(),
        ensures
            final(self).ready_for(r.action),
            done_once_last(notices_view(r.notices@), r.action is Finished),
            old(self).rounds <= cfg.max_tool_turns ==> final(self).rounds <= cfg.max_tool_turns,
            final(self).reflect@ == old(self).reflect@,
            final(session).system_prompt == old(session).system_prompt,
            final(session).max_tokens == old(session).max_tokens,
            old(self).rounds >= cfg.max_tool_turns ==> {
                &&& final(self).phase == TurnPhase::Finished
                &&& final(self).rounds == old(self).rounds
                &&& r.action is Finished
                &&& notices_view(r.notices@) == seq![
                    NoticeView::Warning(
                        "Reached max "@ + decimal(cfg.max_tool_turns as nat) + " tool turns."@,
                    ),
                    NoticeView::Done,
                ]
                &&& match last_user(old(session).messages@) {
                    Some(k) => final(session).messages@ == old(session).messages@.take(k),
                    None => final(session).messages@ == old(session).messages@,
                }
            },
            old(self).rounds < cfg.max_tool_turns ==> {
                &&& final(self).phase == TurnPhase::Streaming
                &&& final(self).rounds == old(self).rounds + 1
                &&& prepared(
                    *cfg,
                    old(self).reflect@,
                    old(session).messages@,
                    old(session).max_tokens as nat,
                    final(session).messages@,
                    notices_view(r.notices@),
                )
                &&& r.action matches TurnAction::Stream(defs) && defs_view(defs@) == if mode.current
                    == AgentMode::Plan {
                    plan_defs()
                } else {
                    full_defs()
                }
                &&& final(self).collector.content_chunks@.len() == 0
                &&& final(self).collector.reasoning_chunks@.len() == 0
                &&& final(self).collector.tool_calls@.len() == 0
                &&& final(self).collector.usage_total is None
                &&& !final(self).collector.got_events
            },
    {
        if self.rounds >= cfg.max_tool_turns {
            let notices = exhausted_turns(cfg, session);
            assert(notices_view(notices@) =~= seq![
                NoticeView::Warning("Reached max "@ + decimal(cfg.max_tool_turns as nat) + " tool turns."@),
                NoticeView::Done,
            ]);
            self.phase = TurnPhase::Finished;
            return TurnStep { notices, action: TurnAction::Finished };
        }
        let notices = prepare_round(cfg, session, &self.reflect);
        self.rounds = self.rounds + 1;
        self.collector = RoundCollector::new();
        self.phase = TurnPhase::Streaming;
        TurnStep { notices, action: TurnAction::Stream(active_tool_defs(mode.current)) }
    }

    /// Takes one event of the reply (see `took_event`); an error ends the turn.
    pub fn on_stream_event(&mut self, event: Result<StreamEvent, RelayError>, session: &mut Session) -> (r: EventStep)
        requires
            old(self).phase == TurnPhase::Streaming,
            old(self).next <= old(self).calls@.len(),
        ensures
            final(self).calls == old(self).calls,
            final(self).next == old(self).next,
            took_event(
                old(self).collector,
                final(self).collector,
                event,
                old(session).messages@,
                final(session).messages@,
                r,
            ),
            final(self).phase == if r is Stop {
                TurnPhase::Finished
            } else {
                TurnPhase::Streaming
            },
            match r {
                EventStep::Continue(Some(n)) => !(notice_view(n) is Done),
                EventStep::Continue(None) => true,
                EventStep::Stop(ns) => done_once_last(notices_view(ns@), true),
            },
            final(self).rounds == old(self).rounds,
            final(self).reflect@ == old(self).reflect@,
            final(session).system_prompt == old(session).system_prompt,
            final(session).max_tokens == old(session).max_tokens,
    {
        let step = self.collector.on_event(event, session);
        match step {
            EventStep::Stop(_) => self.phase = TurnPhase::Finished,
            EventStep::Continue(_) => {},
        }
        step
    }

    /// Ends the reply. Without any event the turn ends with an error;
    /// otherwise the reply is recorded (see `committed`): a final answer ends
    /// the turn, tool calls are looked at next. `true` in `r.0` asks for the
    /// statistics line before the notices.
    pub fn on_stream_end(&mut self, session: &mut Session) -> (r: (bool, TurnStep))
        requires
            old(self).phase == TurnPhase::Streaming,
            old(self).next <= old(self).calls@.len(),
        ensures
            final(self).ready_for(r.1.action),
            done_once_last(notices_view(r.1.notices@), r.1.action is Finished),
            final(self).rounds == old(self).rounds,
            final(self).reflect@ == old(self).reflect@,
            final(session).system_prompt == old(session).system_prompt,
            final(session).max_tokens == old(session).max_tokens,
            !old(self).collector.got_events ==> {
                &&& !r.0
                &&& final(self).phase == TurnPhase::Finished
                &&& r.1.action is Finished
                &&& notices_view(r.1.notices@) == seq![
                    NoticeView::Error("No response from API"@),
                    NoticeView::Done,
                ]
                &&& final(session).messages@ == old(session).messages@
            },
            old(self).collector.got_events ==> {
                &&& r.0
                &&& committed(old(self).collector, old(session).messages@, final(session).messages@)
                &&& old(self).collector.tool_calls@.len() == 0 ==> {
                    &&& final(self).phase == TurnPhase::Finished
                    &&& r.1.action is Finished
                    &&& notices_view(r.1.notices@) == seq![NoticeView::Done]
                }
                &&& old(self).collector.tool_calls@.len() > 0 ==> {
                    &&& final(self).phase == TurnPhase::Choosing
                    &&& final(self).calls@ == old(self).collector.tool_calls@
                    &&& final(self).next == 0
                    &&& r.1.action is NextCall
                    &&& r.1.notices@.len() == 0
                }
            },
    {
        match self.collector.no_response() {
            Some(notices) => {
                assert(notices_view(notices@) =~= seq![
                    NoticeView::Error("No response from API"@),
                    NoticeView::Done,
                ]);
                self.phase = TurnPhase::Finished;
                return (false, TurnStep { notices, action: TurnAction::Finished });
            },
            None => {},
        }
        let mut collector = RoundCollector::new();
        std::mem::swap(&mut collector, &mut self.collector);
        match commit_round(collector, session) {
            RoundEnd::Final => {
                self.phase = TurnPhase::Finished;
                let notices = vec![TurnNotice::Done];
                assert(notices_view(notices@) =~= seq![NoticeView::Done]);
                (true, TurnStep { notices, action: TurnAction::Finished })
            },
            RoundEnd::Tools(calls) => {
                self.calls = calls;
                self.next = 0;
                self.phase = TurnPhase::Choosing;
                (true, TurnStep { notices: Vec::new(), action: TurnAction::NextCall })
            },
        }
    }

    /// The first call from `from` on that the mode does not forbid, and the
    /// warnings for those it skips.
    fn skip_blocked(&self, mode: &ModeState, from: usize) -> (r: (usize, Vec<TurnNotice>))
        requires
            from <= self.calls@.len(),
        ensures
            r.0 == first_open(*mode, self.calls@, from as int),
            notices_view(r.1@) == skip_notes(self.calls@, from as int, r.0 as int),
            r.0 <= self.calls@.len(),
    {
        let mut notices: Vec<TurnNotice> = Vec::new();
        let mut i = from;
        while i < self.calls.len() && mode.is_tool_blocked(self.calls[i].function.name.as_str())
            invariant
                from <= i <= self.calls@.len(),
                first_open(*mode, self.calls@, from as int) == first_open(*mode, self.calls@, i as int),
                notices_view(notices@) == skip_notes(self.calls@, from as int, i as int),
            decreases self.calls@.len() - i,
        {
            let name = self.calls[i].function.name.as_str();
            let mut w = chars_of(name);
            push_str(&mut w, " is not allowed in Plan mode");
            let ghost before = notices@;
            notices.push(TurnNotice::Warning(string_of(w.as_slice())));
            proof {
                assert(notices_view(notices@) =~= notices_view(before).push(notice_view(notices@.last())));
                assert(notices_view(notices@) =~= skip_notes(self.calls@, from as int, i + 1));
            }
            i = i + 1;
        }
        (i, notices)
    }

    /// Looks at the next call: calls the mode forbids are skipped with a
    /// warning; a call that needs approval is proposed; another is run. When
    /// no call is left, the round ends (see `end_round`). A call the mode
    /// forbids is never run.
    pub fn next_call(&mut self, cfg: &Config, session: &mut Session, mode: &ModeState) -> (r: TurnStep)
        requires
            old(self).phase == TurnPhase::Choosing,
            old(self).next <= old(self).calls@.len(),
        ensures
            final(self).ready_for(r.action),
            done_once_last(notices_view(r.notices@), r.action is Finished),
            ({
                let calls = old(self).calls@;
                let k = first_open(*mode, calls, old(self).next as int);
                let skipped = skip_notes(calls, old(self).next as int, k);
                &&& k >= calls.len() ==> {
                    &&& final(self).phase == TurnPhase::Ready
                    &&& r.action is NextRound
                    &&& notices_view(r.notices@) == skipped
                    &&& if cfg.compress_tool_history {
                        crate::message::compressed(old(session).messages@, final(session).messages@)
                    } else {
                        final(session).messages@ == old(session).messages@
                    }
                }
                &&& k < calls.len() && needs_approval(mode, calls[k].function.name@) ==> {
                    &&& final(self).phase == TurnPhase::Approving
                    &&& final(self).next == k
                    &&& r.action is AskApproval
                    &&& notices_view(r.notices@) == skipped.push(proposal_view(calls[k]))
                    &&& final(session).messages@ == old(session).messages@
                }
                &&& k < calls.len() && !needs_approval(mode, calls[k].function.name@) ==> {
                    &&& final(self).phase == TurnPhase::Running
                    &&& final(self).next == k
                    &&& r.action matches TurnAction::RunTool(c) && c == calls[k]
                    &&& notices_view(r.notices@) == skipped.push(executing_view(calls[k]))
                    &&& final(session).messages@ == old(session).messages@
                }
            }),
            r.action matches TurnAction::RunTool(c) ==> !blocked_call(*mode, c.function.name@),
            final(self).calls == old(self).calls,
            final(self).rounds == old(self).rounds,
            final(self).reflect@ == old(self).reflect@,
            final(session).system_prompt == old(session).system_prompt,
            final(session).max_tokens == old(session).max_tokens,
    {
        let (k, mut notices) = self.skip_blocked(mode, self.next);
        let ghost skipped = notices_view(notices@);
        if k >= self.calls.len() {
            end_round(cfg, session);
            self.next = k;
            self.phase = TurnPhase::Ready;
            return TurnStep { notices, action: TurnAction::NextRound };
        }
        proof {
            lemma_first_open(*mode, self.calls@, old(self).next as int);
        }
        let name = self.calls[k].function.name.as_str();
        let args = self.calls[k].function.arguments.as_str();
        match gate_tool(mode, name, args) {
            ToolGate::Confirm(n) => {
                notices.push(n);
                assert(notices_view(notices@) =~= skipped.push(proposal_view(self.calls@[k as int])));
                self.next = k;
                self.phase = TurnPhase::Approving;
                TurnStep { notices, action: TurnAction::AskApproval }
            },
            _ => {
                notices.push(executing_notice(name, args));
                assert(notices_view(notices@) =~= skipped.push(executing_view(self.calls@[k as int])));
                let call = copy_call(&self.calls[k]);
                self.next = k;
                self.phase = TurnPhase::Running;
                TurnStep { notices, action: TurnAction::RunTool(call) }
            },
        }
    }

    /// Takes the user's answer about the proposed call: an approval runs it;
    /// a rejection or a closed channel tells the model (see `on_approval`)
    /// and moves to the next call.
    pub fn on_approval(&mut self, answer: Approval, session: &mut Session) -> (r: TurnStep)
        requires
            old(self).phase == TurnPhase::Approving,
            old(self).next < old(self).calls@.len(),
        ensures
            final(self).ready_for(r.action),
            done_once_last(notices_view(r.notices@), r.action is Finished),
            ({
                let c = old(self).calls@[old(self).next as int];
                let name = c.function.name@;
                if answer == Approval::Approved {
                    &&& final(self).phase == TurnPhase::Running
                    &&& final(self).next == old(self).next
                    &&& r.action matches TurnAction::RunTool(x) && x == c
                    &&& notices_view(r.notices@) == seq![executing_view(c)]
                    &&& final(session).messages@ == old(session).messages@
                } else {
                    &&& final(self).phase == TurnPhase::Choosing
                    &&& final(self).next == old(self).next + 1
                    &&& r.action is NextCall
                    &&& notices_view(r.notices@) == seq![NoticeView::Warning("User rejected: "@ + name)]
                    &&& final(session).messages@.len() == old(session).messages@.len() + 1
                    &&& final(session).messages@.drop_last() == old(session).messages@
                    &&& final(session).messages@.last() matches Message::System { content }
                        && content@ == rejection_message(name)
                }
            }),
            final(self).calls == old(self).calls,
            final(self).rounds == old(self).rounds,
            final(self).reflect@ == old(self).reflect@,
            final(session).system_prompt == old(session).system_prompt,
            final(session).max_tokens == old(session).max_tokens,
    {
        let k = self.next;
        let len = self.calls.len();
        assert(k < len);
        match on_approval(answer, self.calls[k].function.name.as_str(), session) {
            Some(w) => {
                let notices = vec![w];
                assert(notices_view(notices@) =~= seq![
                    NoticeView::Warning("User rejected: "@ + self.calls@[k as int].function.name@),
                ]);
                self.next = k + 1;
                self.phase = TurnPhase::Choosing;
                TurnStep { notices, action: TurnAction::NextCall }
            },
            None => {
                let notices = vec![
                    executing_notice(
                        self.calls[k].function.name.as_str(),
                        self.calls[k].function.arguments.as_str(),
                    ),
                ];
                assert(notices_view(notices@) =~= seq![executing_view(self.calls@[k as int])]);
                let call = copy_call(&self.calls[k]);
                self.phase = TurnPhase::Running;
                TurnStep { notices, action: TurnAction::RunTool(call) }
            },
        }
    }

    /// Runs the proposed call with the arguments the user edited in place
    /// of its own; the call keeps its id and name.
    pub fn on_edit(&mut self, arguments: String) -> (r: TurnStep)
        requires
            old(self).phase == TurnPhase::Approving,
            old(self).next < old(self).calls@.len(),
        ensures
            final(self).ready_for(r.action),
            done_once_last(notices_view(r.notices@), r.action is Finished),
            final(self).phase == TurnPhase::Running,
            final(self).next == old(self).next,
            ({
                let e = edited(old(self).calls@[old(self).next as int], arguments);
                &&& final(self).calls@ == old(self).calls@.update(old(self).next as int, e)
                &&& r.action matches TurnAction::RunTool(x) && x == e
                &&& notices_view(r.notices@) == seq![executing_view(e)]
            }),
            final(self).rounds == old(self).rounds,
            final(self).reflect@ == old(self).reflect@,
    {
        let k = self.next;
        let len = self.calls.len();
        assert(k < len);
        let old_call = copy_call(&self.calls[k]);
        let call = ToolCall {
            id: old_call.id,
            type_: old_call.type_,
            function: ToolCallFunction { name: old_call.function.name, arguments },
        };
        let notices = vec![
            executing_notice(call.function.name.as_str(), call.function.arguments.as_str()),
        ];
        assert(notices_view(notices@) =~= seq![executing_view(call)]);
        self.calls.set(k, copy_call(&call));
        self.phase = TurnPhase::Running;
        TurnStep { notices, action: TurnAction::RunTool(call) }
    }

    /// Takes the result of the call that ran (see `record_tool_outcome`) and
    /// moves to the next call.
    pub fn on_tool_result(&mut self, result: &Result<String, String>, session: &mut Session) -> (r: TurnStep)
        requires
            old(self).phase == TurnPhase::Running,
            old(self).next < old(self).calls@.len(),
            old(self).reflect@.total_failures < u32::MAX,
        ensures
            final(self).ready_for(r.action),
            done_once_last(notices_view(r.notices@), r.action is Finished),
            ({
                let c = old(self).calls@[old(self).next as int];
                &&& final(session).messages@.len() == old(session).messages@.len() + 1
                &&& final(session).messages@.drop_last() == old(session).messages@
                &&& final(session).messages@.last() matches Message::Tool { tool_call_id, content }
                    && tool_call_id@ == c.id@ && content@ == match result {
                    Ok(out) => out@,
                    Err(e) => "error: "@ + e@,
                }
                &&& final(self).reflect@ == after_attempt(
                    old(self).reflect@,
                    c.function.name@,
                    c.function.arguments@,
                    result is Ok,
                )
                &&& notices_view(r.notices@) == seq![
                    match result {
                        Ok(out) => NoticeView::ToolCallResult { display: output_display(out@), success: true },
                        Err(e) => NoticeView::ToolCallResult { display: "Error: "@ + e@, success: false },
                    },
                ]
            }),
            final(self).phase == TurnPhase::Choosing,
            final(self).next == old(self).next + 1,
            r.action is NextCall,
            final(self).calls == old(self).calls,
            final(self).rounds == old(self).rounds,
            final(session).system_prompt == old(session).system_prompt,
            final(session).max_tokens == old(session).max_tokens,
    {
        let k = self.next;
        let len = self.calls.len();
        assert(k < len);
        let shown = record_tool_outcome(session, &mut self.reflect, &self.calls[k], result);
        let notices = vec![shown];
        assert(notices_view(notices@) =~= seq![notice_view(notices@[0])]);
        self.next = k + 1;
        self.phase = TurnPhase::Choosing;
        TurnStep { notices, action: TurnAction::NextCall }
    }
}

} // verus!

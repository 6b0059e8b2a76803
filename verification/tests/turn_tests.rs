use relay::client::StreamEvent;
use relay::config::Config;
use relay::error::RelayError;
use relay::message::{Message, Session, ToolCall, ToolCallFunction};
use relay::mode::{AgentMode, ModeState};
use relay::reflect::ReflectState;
use relay::supervisor::{NoopSupervisor, Supervisor};
use relay::turn::{
    commit_round, end_round, executing_notice, exhausted_turns, gate_tool, on_approval,
    prepare_round, record_tool_outcome, Approval, EventStep, RoundCollector, RoundEnd, ToolGate,
    TurnAction, TurnDriver, TurnNotice,
};

fn session() -> Session {
    let mut s = Session::new(&Config::default(), "sys");
    s.add_user_message("goal");
    s
}

fn call(name: &str, args: &str) -> ToolCall {
    ToolCall {
        id: "c1".to_string(),
        type_: "function".to_string(),
        function: ToolCallFunction { name: name.to_string(), arguments: args.to_string() },
    }
}

#[test]
fn prepare_round_injects_anti_stuck_messages() {
    let cfg = Config::default();
    let mut s = session();
    let mut r = ReflectState::new();
    for _ in 0..3 {
        r.record_attempt("shell", "x", false);
    }
    let notices = prepare_round(&cfg, &mut s, &r);
    assert_eq!(notices.len(), 2);
    assert!(matches!(&notices[0], TurnNotice::Warning(w) if w == "Call blocked: repeating same tool+args"));
    assert!(matches!(&notices[1], TurnNotice::Warning(w) if w == "Reflection requested by anti-stuck system"));
    assert_eq!(s.messages.len(), 4);
    let clean = prepare_round(&cfg, &mut s, &ReflectState::new());
    assert!(clean.is_empty());
}

#[test]
fn collector_gathers_a_reply() {
    let mut s = session();
    let mut c = RoundCollector::new();
    assert!(c.no_response().is_some());
    assert!(matches!(c.on_event(Ok(StreamEvent::Content("Hel".into())), &mut s), EventStep::Continue(Some(TurnNotice::Content(_)))));
    c.on_event(Ok(StreamEvent::Content("lo".into())), &mut s);
    c.on_event(Ok(StreamEvent::Reasoning("think".into())), &mut s);
    c.on_event(Ok(StreamEvent::Usage { prompt_tokens: 1, completion_tokens: 2, total_tokens: 3 }), &mut s);
    assert_eq!(c.usage_total, Some(3));
    assert!(c.no_response().is_none());
    match commit_round(c, &mut s) {
        RoundEnd::Final => {}
        RoundEnd::Tools(_) => panic!("expected a final answer"),
    }
    match s.messages.last() {
        Some(Message::Assistant { content, reasoning_content, tool_calls }) => {
            assert_eq!(content.as_deref(), Some("Hello"));
            assert_eq!(reasoning_content.as_deref(), Some("think"));
            assert!(tool_calls.is_none());
        }
        other => panic!("unexpected {other:?}"),
    }
}

#[test]
fn tool_calls_end_the_round_with_tools() {
    let mut s = session();
    let mut c = RoundCollector::new();
    c.on_event(Ok(StreamEvent::ToolCall { id: "c1".into(), name: "read".into(), args: "{}".into() }), &mut s);
    match commit_round(c, &mut s) {
        RoundEnd::Tools(calls) => {
            assert_eq!(calls.len(), 1);
            assert_eq!(calls[0].function.name, "read");
            assert_eq!(calls[0].type_, "function");
        }
        RoundEnd::Final => panic!("expected tools"),
    }
    assert!(matches!(s.messages.last(), Some(Message::Assistant { content: None, .. })));
}

#[test]
fn model_error_drops_the_user_message() {
    let mut s = session();
    let mut c = RoundCollector::new();
    match c.on_event(Ok(StreamEvent::Error("overloaded".into())), &mut s) {
        EventStep::Stop(ns) => {
            assert!(matches!(&ns[0], TurnNotice::Error(m) if m == "overloaded"));
            assert!(matches!(ns[1], TurnNotice::Done));
        }
        EventStep::Continue(_) => panic!("expected stop"),
    }
    assert_eq!(s.messages.len(), 1);
    let mut s2 = session();
    match c.on_event(Err(RelayError::Network("down".into())), &mut s2) {
        EventStep::Stop(ns) => assert!(matches!(&ns[0], TurnNotice::Error(m) if m == "network: down")),
        EventStep::Continue(_) => panic!("expected stop"),
    }
    assert_eq!(s2.messages.len(), 2);
}

#[test]
fn gating_by_mode() {
    let plan = ModeState::new(AgentMode::Plan);
    assert!(matches!(gate_tool(&plan, "shell", "{}"), ToolGate::Blocked(TurnNotice::Warning(w)) if w == "shell is not allowed in Plan mode"));
    assert!(matches!(gate_tool(&plan, "read", "{}"), ToolGate::Run));
    let confirm = ModeState::new(AgentMode::Confirm);
    match gate_tool(&confirm, "write", &"a".repeat(200)) {
        ToolGate::Confirm(TurnNotice::ToolCallProposed { display, .. }) => {
            assert_eq!(display, format!("write({})", "a".repeat(120)))
        }
        _ => panic!("expected a proposal"),
    }
    assert!(matches!(gate_tool(&confirm, "read", "{}"), ToolGate::Run));
    assert!(matches!(gate_tool(&ModeState::new(AgentMode::Auto), "shell", "{}"), ToolGate::Run));
}

#[test]
fn approvals() {
    let mut s = session();
    assert!(on_approval(Approval::Approved, "write", &mut s).is_none());
    assert_eq!(s.messages.len(), 2);
    assert!(matches!(on_approval(Approval::Rejected, "write", &mut s), Some(TurnNotice::Warning(w)) if w == "User rejected: write"));
    assert!(matches!(s.messages.last(), Some(Message::System { content }) if content == "The user rejected the call to write(...). Do NOT retry the same call. Explain why or try a different approach."));
}

#[test]
fn outcomes_are_recorded() {
    let mut s = session();
    let mut r = ReflectState::new();
    let n = record_tool_outcome(&mut s, &mut r, &call("read", "{}"), &Ok("x".repeat(600)));
    assert!(matches!(n, TurnNotice::ToolCallResult { display, success: true } if display == format!("{}...", "x".repeat(500))));
    let n = record_tool_outcome(&mut s, &mut r, &call("read", "{}"), &Err("nope".to_string()));
    assert!(matches!(n, TurnNotice::ToolCallResult { display, success: false } if display == "Error: nope"));
    assert!(matches!(s.messages.last(), Some(Message::Tool { content, .. }) if content == "error: nope"));
    assert_eq!(r.total_failures(), 1);
    assert!(matches!(executing_notice("shell", &"b".repeat(130)), TurnNotice::ToolCallExecuting { args, .. } if args.len() == 120));
}

#[test]
fn rounds_end_and_turns_run_out() {
    let cfg = Config::default();
    let mut s = session();
    end_round(&cfg, &mut s);
    assert_eq!(s.messages.len(), 2);
    let ns = exhausted_turns(&cfg, &mut s);
    assert!(matches!(&ns[0], TurnNotice::Warning(w) if w == "Reached max 20 tool turns."));
    assert!(matches!(ns[1], TurnNotice::Done));
    assert_eq!(s.messages.len(), 1);
}

#[test]
fn noop_supervisor_never_intervenes() {
    let sup = NoopSupervisor;
    assert!(sup.review_before_turn(&[], "goal").is_none());
    assert!(sup.on_tool_failure("shell", "err", &[]).is_none());
}

fn stream(driver: &mut TurnDriver, s: &mut Session, events: Vec<StreamEvent>) {
    for e in events {
        assert!(matches!(driver.on_stream_event(Ok(e), s), EventStep::Continue(_)));
    }
}

#[test]
fn driver_runs_a_round_of_tools_then_answers() {
    let cfg = Config::default();
    let mode = ModeState::new(AgentMode::Auto);
    let mut s = session();
    let mut d = TurnDriver::new();
    let step = d.start_round(&cfg, &mut s, &mode);
    match step.action {
        TurnAction::Stream(defs) => assert_eq!(defs.len(), 6),
        _ => panic!("expected a stream"),
    }
    stream(&mut d, &mut s, vec![StreamEvent::ToolCall { id: "c1".into(), name: "read".into(), args: "{\"path\":\"a\"}".into() }]);
    let (stats, step) = d.on_stream_end(&mut s);
    assert!(stats);
    assert!(matches!(step.action, TurnAction::NextCall));
    let step = d.next_call(&cfg, &mut s, &mode);
    assert!(matches!(&step.notices[0], TurnNotice::ToolCallExecuting { name, .. } if name == "read"));
    match step.action {
        TurnAction::RunTool(c) => assert_eq!(c.id, "c1"),
        _ => panic!("expected a tool run"),
    }
    let step = d.on_tool_result(&Ok("contents".to_string()), &mut s);
    assert!(matches!(s.messages.last(), Some(Message::Tool { content, .. }) if content == "contents"));
    assert!(matches!(step.action, TurnAction::NextCall));
    let step = d.next_call(&cfg, &mut s, &mode);
    assert!(matches!(step.action, TurnAction::NextRound));
    let step = d.start_round(&cfg, &mut s, &mode);
    assert!(matches!(step.action, TurnAction::Stream(_)));
    stream(&mut d, &mut s, vec![StreamEvent::Content("All done.".into())]);
    let (_, step) = d.on_stream_end(&mut s);
    assert!(matches!(step.action, TurnAction::Finished));
    assert!(matches!(step.notices[0], TurnNotice::Done));
    assert_eq!(d.rounds, 2);
}

#[test]
fn driver_never_runs_forbidden_calls_in_plan_mode() {
    let cfg = Config::default();
    let mode = ModeState::new(AgentMode::Plan);
    let mut s = session();
    let mut d = TurnDriver::new();
    match d.start_round(&cfg, &mut s, &mode).action {
        TurnAction::Stream(defs) => assert_eq!(defs.len(), 4),
        _ => panic!("expected a stream"),
    }
    stream(&mut d, &mut s, vec![
        StreamEvent::ToolCall { id: "a".into(), name: "shell".into(), args: "{}".into() },
        StreamEvent::ToolCall { id: "b".into(), name: "write".into(), args: "{}".into() },
        StreamEvent::ToolCall { id: "c".into(), name: "grep".into(), args: "{}".into() },
    ]);
    d.on_stream_end(&mut s);
    let step = d.next_call(&cfg, &mut s, &mode);
    assert_eq!(step.notices.len(), 3);
    assert!(matches!(&step.notices[0], TurnNotice::Warning(w) if w == "shell is not allowed in Plan mode"));
    assert!(matches!(&step.notices[1], TurnNotice::Warning(w) if w == "write is not allowed in Plan mode"));
    match step.action {
        TurnAction::RunTool(c) => assert_eq!(c.function.name, "grep"),
        _ => panic!("expected grep to run"),
    }
}

#[test]
fn driver_asks_before_writing_in_confirm_mode() {
    let cfg = Config::default();
    let mode = ModeState::new(AgentMode::Confirm);
    let mut s = session();
    let mut d = TurnDriver::new();
    d.start_round(&cfg, &mut s, &mode);
    stream(&mut d, &mut s, vec![
        StreamEvent::ToolCall { id: "w".into(), name: "write".into(), args: "{}".into() },
    ]);
    d.on_stream_end(&mut s);
    let step = d.next_call(&cfg, &mut s, &mode);
    assert!(matches!(step.action, TurnAction::AskApproval));
    assert!(matches!(&step.notices[0], TurnNotice::ToolCallProposed { display, .. } if display == "write({})"));
    let step = d.on_approval(Approval::Rejected, &mut s);
    assert!(matches!(step.action, TurnAction::NextCall));
    assert!(matches!(s.messages.last(), Some(Message::System { .. })));
    let step = d.next_call(&cfg, &mut s, &mode);
    assert!(matches!(step.action, TurnAction::NextRound));
}

#[test]
fn driver_runs_an_edited_call() {
    let cfg = Config::default();
    let mode = ModeState::new(AgentMode::Confirm);
    let mut s = session();
    let mut d = TurnDriver::new();
    d.start_round(&cfg, &mut s, &mode);
    stream(&mut d, &mut s, vec![
        StreamEvent::ToolCall { id: "w".into(), name: "write".into(), args: "{\"path\":\"a\"}".into() },
    ]);
    d.on_stream_end(&mut s);
    let step = d.next_call(&cfg, &mut s, &mode);
    assert!(matches!(step.action, TurnAction::AskApproval));
    let step = d.on_edit("{\"path\":\"b\"}".to_string());
    assert!(matches!(&step.notices[0], TurnNotice::ToolCallExecuting { name, args } if name == "write" && args == "{\"path\":\"b\"}"));
    match step.action {
        TurnAction::RunTool(c) => {
            assert_eq!(c.id, "w");
            assert_eq!(c.function.name, "write");
            assert_eq!(c.function.arguments, "{\"path\":\"b\"}");
        }
        _ => panic!("expected the edited call to run"),
    }
    let step = d.on_tool_result(&Ok("done".to_string()), &mut s);
    assert!(matches!(step.action, TurnAction::NextCall));
    assert!(matches!(s.messages.last(), Some(Message::Tool { tool_call_id, content }) if tool_call_id == "w" && content == "done"));
}

#[test]
fn driver_stops_after_max_rounds_and_on_silence() {
    let cfg = Config { max_tool_turns: 0, ..Config::default() };
    let mode = ModeState::new(AgentMode::Auto);
    let mut s = session();
    let mut d = TurnDriver::new();
    let step = d.start_round(&cfg, &mut s, &mode);
    assert!(matches!(step.action, TurnAction::Finished));
    assert!(matches!(&step.notices[0], TurnNotice::Warning(w) if w == "Reached max 0 tool turns."));
    assert_eq!(s.messages.len(), 1);

    let cfg = Config::default();
    let mut s = session();
    let mut d = TurnDriver::new();
    d.start_round(&cfg, &mut s, &mode);
    let (stats, step) = d.on_stream_end(&mut s);
    assert!(!stats);
    assert!(matches!(&step.notices[0], TurnNotice::Error(m) if m == "No response from API"));
    assert!(matches!(step.action, TurnAction::Finished));
}

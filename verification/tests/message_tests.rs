use relay::config::Config;
use relay::message::{Message, Session, ToolCall, ToolCallFunction};

fn test_config() -> Config {
    Config { max_context_tokens: 128_000, context_safety_margin: 4000, ..Config::default() }
}

fn call(i: usize) -> ToolCall {
    ToolCall {
        id: format!("call_{i}"),
        type_: "function".into(),
        function: ToolCallFunction { name: format!("tool_{i}"), arguments: "{}".into() },
    }
}

#[test]
fn test_add_and_count_messages() {
    let cfg = test_config();
    let mut s = Session::new(&cfg, "You are a helpful assistant.");
    s.add_user_message("hello");
    s.add_assistant_message(Some("hi"), None, None);
    assert_eq!(s.messages.len(), 3);
    assert!(s.total_tokens() > 0);
}

#[test]
fn test_pop_last_user() {
    let cfg = test_config();
    let mut s = Session::new(&cfg, "system");
    s.add_user_message("first");
    s.add_assistant_message(Some("resp1"), None, None);
    s.add_user_message("second");
    s.add_assistant_message(Some("resp2"), None, None);

    let popped = s.pop_last_user_message();
    assert!(popped.is_some());
    assert_eq!(s.messages.len(), 3);
}

#[test]
fn test_tool_result() {
    let cfg = test_config();
    let mut s = Session::new(&cfg, "system");
    s.add_user_message("run tool");
    s.add_tool_result("call_1", "result data");
    assert_eq!(s.messages.len(), 3);
}

#[test]
fn test_inject_system() {
    let cfg = test_config();
    let mut s = Session::new(&cfg, "system");
    s.inject_system_message("reflect on your actions");
    assert_eq!(s.messages.len(), 2);
}

#[test]
fn test_compress() {
    let cfg = test_config();
    let mut s = Session::new(&cfg, "system");
    s.add_user_message("do stuff");
    for i in 0..5 {
        s.add_assistant_message(None, None, Some(vec![call(i)]));
        s.add_tool_result(&format!("call_{i}"), &format!("result_{i}"));
    }
    s.add_assistant_message(Some("done"), None, None);

    let before = s.messages.len();
    s.compress_old_tool_results();
    assert!(s.messages.len() < before);
}

#[test]
fn test_clear_keeps_system() {
    let cfg = test_config();
    let mut s = Session::new(&cfg, "system prompt");
    s.add_user_message("hello");
    s.clear();
    assert_eq!(s.messages.len(), 1);
}

#[test]
fn budget_is_context_less_margin() {
    let s = Session::new(&test_config(), "sys");
    assert_eq!(s.max_tokens(), 124_000);
    let tight = Config { max_context_tokens: 100, context_safety_margin: 4000, ..Config::default() };
    assert_eq!(Session::new(&tight, "sys").max_tokens(), 0);
}

#[test]
fn token_estimate_exact_values() {
    // 9 characters cost 9 * 2 / 9 + 4 = 6 tokens; a tool result costs 10 more.
    let mut s = Session::new(&test_config(), "123456789");
    assert_eq!(s.total_tokens(), 6);
    s.add_tool_result("id", "");
    assert_eq!(s.total_tokens(), 6 + 4 + 10);
    s.add_assistant_message(None, None, Some(vec![call(0)]));
    // "tool_0" costs 6 * 2 / 9 + 4 = 5, "{}" costs 4.
    assert_eq!(s.total_tokens(), 20 + 5 + 4);
}

#[test]
fn compress_keeps_last_two_pairs_and_summarizes() {
    let mut s = Session::new(&test_config(), "system");
    s.add_user_message("do stuff");
    for i in 0..5 {
        s.add_assistant_message(None, None, Some(vec![call(i)]));
        s.add_tool_result(&format!("call_{i}"), &format!("result_{i}"));
    }
    s.compress_old_tool_results();
    // system, user, summary, two pairs
    assert_eq!(s.messages.len(), 7);
    match &s.messages[2] {
        Message::System { content } => {
            assert_eq!(content, "[summary: previously attempted 3 tool calls: tool_0, tool_1, tool_2]")
        }
        other => panic!("unexpected {other:?}"),
    }
    match &s.messages[6] {
        Message::Tool { tool_call_id, .. } => assert_eq!(tool_call_id, "call_4"),
        other => panic!("unexpected {other:?}"),
    }
}

#[test]
fn compress_leaves_short_runs() {
    let mut s = Session::new(&test_config(), "system");
    s.add_user_message("go");
    for i in 0..3 {
        s.add_assistant_message(None, None, Some(vec![call(i)]));
        s.add_tool_result(&format!("call_{i}"), "ok");
    }
    let before = s.messages.len();
    s.compress_old_tool_results();
    assert_eq!(s.messages.len(), before);
}

#[test]
fn pop_without_user_message_changes_nothing() {
    let mut s = Session::new(&test_config(), "system");
    s.inject_system_message("note");
    assert!(s.pop_last_user_message().is_none());
    assert_eq!(s.messages.len(), 2);
}

#[test]
fn pop_undoes_add_user_message() {
    let mut s = Session::new(&test_config(), "system");
    s.add_assistant_message(Some("hi"), None, None);
    let before = s.messages.len();
    s.add_user_message("question");
    match s.pop_last_user_message() {
        Some(Message::User { content }) => assert_eq!(content, "question"),
        other => panic!("unexpected {other:?}"),
    }
    assert_eq!(s.messages.len(), before);
}

#[test]
fn context_fit_drops_old_tool_results_first() {
    let cfg = Config { max_context_tokens: 60, context_safety_margin: 0, ..Config::default() };
    let mut s = Session::new(&cfg, "system");
    s.add_user_message("first");
    s.add_tool_result("a", &"x".repeat(200));
    s.add_user_message("second");
    s.add_assistant_message(Some("answer"), None, None);
    s.ensure_context_fit();
    assert_eq!(s.messages.len(), 4);
    assert!(s.messages.iter().all(|m| !matches!(m, Message::Tool { .. })));
    assert!(s.total_tokens() <= 60);
}

#[test]
fn context_fit_keeps_first_and_last() {
    let cfg = Config { max_context_tokens: 30, context_safety_margin: 0, ..Config::default() };
    let mut s = Session::new(&cfg, "system");
    for i in 0..8 {
        s.add_user_message(&format!("message number {i} with some padding text"));
    }
    s.ensure_context_fit();
    assert_eq!(s.messages.len(), 4);
    assert!(matches!(&s.messages[0], Message::System { content } if content == "system"));
    assert!(matches!(&s.messages[3], Message::User { content } if content.contains("number 7")));
}

#[test]
fn session_default_is_empty() {
    let s = Session::default();
    assert!(s.messages.is_empty());
    assert_eq!(s.max_tokens(), 128_000);
}

#[test]
fn estimate_grows_with_each_message() {
    let mut s = Session::new(&Config::default(), "");
    let t0 = s.total_tokens();
    s.add_user_message("");
    let t1 = s.total_tokens();
    assert!(t1 >= t0 + 4);
    s.inject_system_message("");
    let t2 = s.total_tokens();
    assert!(t2 >= t1 + 4);
    s.add_tool_result("id", "");
    let t3 = s.total_tokens();
    assert!(t3 >= t2 + 14);
    s.add_assistant_message(None, None, None);
    assert!(s.total_tokens() >= t3);
}

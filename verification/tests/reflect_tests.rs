use relay::config::Config;
use relay::reflect::ReflectState;

#[test]
fn test_new_state_starts_clean() {
    let s = ReflectState::new();
    assert_eq!(s.total_failures(), 0);
}

#[test]
fn test_success_resets() {
    let mut s = ReflectState::new();
    s.record_attempt("shell", "rm -rf /", false);
    assert_eq!(s.total_failures(), 1);
    s.record_attempt("shell", "ls", true);
    assert_eq!(s.total_failures(), 0);
    assert_eq!(s.consecutive_same_tool_failures(), 0);
}

#[test]
fn test_reflect_after_two_failures() {
    let cfg = Config {
        anti_stuck_enabled: true,
        reflect_after_failures: 2,
        max_failures_before_hard_stop: 4,
        ..Config::default()
    };
    let mut s = ReflectState::new();
    assert!(s.should_reflect(&cfg).is_none());

    s.record_attempt("shell", "cmd1", false);
    assert!(s.should_reflect(&cfg).is_none());

    s.record_attempt("shell", "cmd2", false);
    let msg = s.should_reflect(&cfg);
    assert!(msg.is_some());
    assert!(msg.unwrap().contains("shell"));
}

#[test]
fn test_block_after_three_same() {
    let cfg = Config { anti_stuck_enabled: true, ..Config::default() };
    let mut s = ReflectState::new();
    s.record_attempt("shell", "rm -rf", false);
    assert!(s.should_block(&cfg).is_none());
    s.record_attempt("shell", "rm -rf", false);
    assert!(s.should_block(&cfg).is_none());
    s.record_attempt("shell", "rm -rf", false);
    let block = s.should_block(&cfg);
    assert!(block.is_some());
    assert!(block.unwrap().contains("Do NOT call"));
}

#[test]
fn test_hard_stop() {
    let cfg = Config {
        anti_stuck_enabled: true,
        reflect_after_failures: 5,
        max_failures_before_hard_stop: 4,
        ..Config::default()
    };
    let mut s = ReflectState::new();
    for i in 0..4 {
        s.record_attempt(&format!("t{i}"), "x", false);
    }
    let msg = s.should_reflect(&cfg);
    assert!(msg.is_some());
    assert!(msg.unwrap().contains("Stop"));
}

#[test]
fn test_disabled() {
    let cfg = Config { anti_stuck_enabled: false, reflect_after_failures: 1, ..Config::default() };
    let mut s = ReflectState::new();
    s.record_attempt("shell", "x", false);
    assert!(s.should_reflect(&cfg).is_none());
    assert!(s.should_block(&cfg).is_none());
}

#[test]
fn test_reset() {
    let mut s = ReflectState::new();
    s.record_attempt("shell", "x", false);
    s.record_attempt("shell", "x", false);
    s.reset();
    assert_eq!(s.total_failures(), 0);
    assert_eq!(s.consecutive_same_tool_failures(), 0);
}

#[test]
fn reflection_message_text() {
    let cfg = Config::default();
    let mut s = ReflectState::new();
    s.record_attempt("grep", "a", false);
    s.record_attempt("grep", "b", false);
    assert_eq!(
        s.should_reflect(&cfg).unwrap(),
        "You've called `grep` 2 times and it failed each time. Before your next action, answer:\n1. What assumption might be wrong?\n2. What is one completely different approach?\n3. Is there a prerequisite step you missed?"
    );
}

#[test]
fn counters_restart_for_another_tool() {
    let mut s = ReflectState::new();
    s.record_attempt("shell", "x", false);
    s.record_attempt("shell", "x", false);
    assert_eq!(s.same_tool_same_args_count(), 1);
    s.record_attempt("read", "x", false);
    assert_eq!(s.total_failures(), 3);
    assert_eq!(s.consecutive_same_tool_failures(), 1);
    assert_eq!(s.same_tool_same_args_count(), 0);
}

#[test]
fn three_identical_failures_block_after_any_history() {
    let cfg = Config::default();
    let mut s = ReflectState::new();
    s.record_attempt("read", "a", false);
    s.record_attempt("write", "b", false);
    for _ in 0..3 {
        s.record_attempt("shell", "make", false);
    }
    assert_eq!(
        s.should_block(&cfg).unwrap(),
        "Do NOT call the same tool with the same arguments again. Try a different approach entirely."
    );
    assert_eq!(s.total_failures(), 5);
}

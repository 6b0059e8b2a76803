use relay::config::Config;
use relay::message::Session;
use relay::mode::{AgentMode, ModeState};
use relay::tui::{badge, line_of, sanitize, span, AppState, Key, KeyAction, SubmitAction, Tone, ViewEvent};

fn texts(a: &AppState) -> Vec<String> {
    a.chat_lines
        .iter()
        .map(|l| l.spans.iter().map(|s| s.text.as_str()).collect::<String>())
        .collect()
}

#[test]
fn sanitize_strips_escapes_and_controls() {
    // The escape's sequence ends at its first character in `@..=~`, here `[`.
    assert_eq!(sanitize("\x1b[31mred\x1b[0m\r\n\tok\x07"), "31mred0m\n\tok");
    assert_eq!(sanitize("\x1b\x01\x02Xrest"), "rest");
    assert_eq!(sanitize("plain"), "plain");
    assert_eq!(sanitize("a\u{0}b\u{85}c"), "abc");
}

#[test]
fn streaming_splits_complete_lines() {
    let mut a = AppState::new();
    a.stream("Hello\r\nwor");
    assert_eq!(texts(&a), vec![" ▌ Hello".to_string()]);
    assert_eq!(a.stream_buf, "wor");
    a.stream("ld\nand more");
    assert_eq!(texts(&a), vec![" ▌ Hello".to_string(), " ▌ world".to_string()]);
    a.flush_stream();
    assert_eq!(texts(&a).last().unwrap(), " ▌ and more");
    assert!(a.stream_buf.is_empty());
    assert!(!a.stream_has_badge);
}

#[test]
fn events_are_shown() {
    let mut a = AppState::new();
    a.processing = true;
    a.on_event(ViewEvent::Content("partial".to_string()));
    a.on_event(ViewEvent::ToolCallExecuting { name: "shell".to_string(), args: "{}".to_string() });
    a.on_event(ViewEvent::ToolCallResult { display: "ok".to_string(), success: false });
    a.on_event(ViewEvent::Warning("careful".to_string()));
    a.on_event(ViewEvent::Error("boom".to_string()));
    a.on_event(ViewEvent::Stats("──  1.0s".to_string()));
    a.on_event(ViewEvent::Done);
    assert_eq!(
        texts(&a),
        vec![" ▌ partial", " ◆ shell{}", "ok", " ⚠ careful", " ✗ boom", "──  1.0s"]
    );
    assert_eq!(a.chat_lines[2].spans[0].tone, Tone::Failure);
    assert!(!a.processing);
    a.on_event(ViewEvent::ModeChanged { from: AgentMode::Auto, to: AgentMode::Plan });
    assert_eq!(a.status, "Auto → Plan");
}

#[test]
fn visible_window_and_padding() {
    let mut a = AppState::new();
    for i in 0..5 {
        a.push(line_of(vec![span(Tone::Plain, format!("l{i}"))]));
    }
    let v = a.visible_lines(3);
    let t: Vec<String> = v.iter().map(|l| l.spans[0].text.clone()).collect();
    assert_eq!(t, vec!["l2", "l3", "l4"]);
    a.scroll_up(1, 3);
    assert_eq!(a.scroll, 1);
    assert!(!a.auto_scroll);
    let t: Vec<String> = a.visible_lines(3).iter().map(|l| l.spans[0].text.clone()).collect();
    assert_eq!(t, vec!["l1", "l2", "l3"]);
    a.scroll_up(10, 3);
    assert_eq!(a.scroll, 2);
    let padded = a.visible_lines(8);
    assert_eq!(padded.len(), 8);
    assert_eq!(padded[7].spans[0].text, " ");
    a.scroll_down(5);
    assert_eq!(a.scroll, 0);
    assert!(a.auto_scroll);
}

#[test]
fn jumping_between_user_lines() {
    let mut a = AppState::new();
    for i in 0..10 {
        let l = line_of(vec![span(Tone::Plain, format!("l{i}"))]);
        if i == 2 || i == 5 {
            a.push_user(l);
        } else {
            a.push(l);
        }
    }
    assert_eq!(a.user_indices, vec![2, 5]);
    a.prev_user(3);
    assert_eq!(a.scroll, 1);
    assert!(!a.auto_scroll);
    a.prev_user(3);
    assert_eq!(a.scroll, 1);
    a.next_user(3);
    assert_eq!(a.scroll, 4);
    assert!(!a.auto_scroll);
    a.fit_scroll(8);
    assert_eq!(a.scroll, 2);
}

#[test]
fn keys_edit_and_send() {
    let mut a = AppState::new();
    assert!(matches!(a.on_key(Key::Char('h'), false, false, false, true, 10), KeyAction::Nothing));
    a.on_key(Key::Char('i'), false, false, false, true, 10);
    a.on_key(Key::Enter, true, false, false, true, 10);
    a.on_key(Key::Char('x'), false, false, false, true, 10);
    a.on_key(Key::Backspace, false, false, false, true, 10);
    assert_eq!(a.input, "hi\n");
    match a.on_key(Key::Enter, false, false, false, true, 10) {
        KeyAction::Submit(t) => assert_eq!(t, "hi\n"),
        _ => panic!("expected a submission"),
    }
    assert!(a.input.is_empty());
    assert!(matches!(a.on_key(Key::Enter, false, false, false, true, 10), KeyAction::Nothing));
    assert!(matches!(a.on_key(Key::Char('c'), true, false, false, true, 10), KeyAction::Quit));
    a.processing = true;
    assert!(matches!(a.on_key(Key::Esc, false, false, false, true, 10), KeyAction::Nothing));
}

#[test]
fn mode_shortcuts() {
    let mut a = AppState::new();
    a.input = "draft".to_string();
    match a.on_key(Key::Char('p'), true, false, false, true, 10) {
        KeyAction::Command(c) => assert_eq!(c, "/plan"),
        _ => panic!("expected a command"),
    }
    match a.on_key(Key::Char('a'), true, false, false, true, 10) {
        KeyAction::Command(c) => assert_eq!(c, "/auto"),
        _ => panic!("expected a command"),
    }
    match a.on_key(Key::Char('y'), true, false, false, true, 10) {
        KeyAction::Command(c) => assert_eq!(c, "/confirm"),
        _ => panic!("expected a command"),
    }
    assert_eq!(a.input, "draft");
    assert!(matches!(a.on_key(Key::Char('q'), true, false, false, true, 10), KeyAction::Nothing));
    a.processing = true;
    assert!(matches!(a.on_key(Key::Char('p'), true, false, false, true, 10), KeyAction::Nothing));
}

#[test]
fn enter_inserts_newline_when_it_does_not_send() {
    let mut a = AppState::new();
    a.on_key(Key::Char('a'), false, false, false, false, 10);
    assert!(matches!(a.on_key(Key::Enter, false, false, false, false, 10), KeyAction::Nothing));
    assert_eq!(a.input, "a\n");
    match a.on_key(Key::Enter, true, false, false, false, 10) {
        KeyAction::Submit(t) => assert_eq!(t, "a\n"),
        _ => panic!("expected a submission"),
    }
}

#[test]
fn submitting_messages_and_commands() {
    let mut a = AppState::new();
    let mut s = Session::new(&Config::default(), "sys");
    let mut m = ModeState::new(AgentMode::Auto);
    match a.submit("hello".to_string(), &mut s, &mut m) {
        SubmitAction::StartTurn(t) => assert_eq!(t, "hello"),
        _ => panic!("expected a turn"),
    }
    assert!(a.processing);
    assert_eq!(texts(&a), vec!["hello   ▌ ".to_string()]);
    assert_eq!(a.user_indices, vec![0]);
    assert_eq!(s.messages.len(), 2);
    assert!(matches!(a.submit("/plan".to_string(), &mut s, &mut m), SubmitAction::Handled));
    assert_eq!(m.current, AgentMode::Plan);
    assert_eq!(a.status, "mode: Auto → plan");
    assert!(matches!(a.submit("/nope x".to_string(), &mut s, &mut m), SubmitAction::Handled));
    assert_eq!(a.status, "unknown: /nope");
    assert!(matches!(a.submit("/clear".to_string(), &mut s, &mut m), SubmitAction::Handled));
    assert!(a.chat_lines.is_empty() && a.user_indices.is_empty());
    assert!(matches!(a.submit("/quit".to_string(), &mut s, &mut m), SubmitAction::Quit));
}

#[test]
fn status_bar_text() {
    let mut a = AppState::new();
    assert_eq!(a.status_text("deepseek-chat"), " Relay | deepseek-chat");
    a.processing = true;
    a.scroll = 4;
    a.auto_scroll = false;
    a.status = "Auto → Plan".to_string();
    assert_eq!(a.status_text("m"), " Relay | m ⏳ ↑4 | Auto → Plan");
}

#[test]
fn badges() {
    assert_eq!(badge("agent").tone, Tone::AgentBadge);
    assert_eq!(badge("user").tone, Tone::UserBadge);
    assert_eq!(badge("other").text, "   ");
}

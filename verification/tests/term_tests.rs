use relay::config::Config;
use relay::message::{Message, Session};
use relay::mode::{AgentMode, ModeState};
use relay::term::{
    apply_command, classify_answer, classify_input, handle_command, parse_command, Command, ConfirmAnswer,
    InputKind,
};
use relay::text::answer_is_no;

fn session() -> Session {
    Session::new(&Config::default(), "sys")
}

#[test]
fn input_kinds() {
    assert!(matches!(classify_input("   \n"), InputKind::Empty));
    assert!(matches!(classify_input("  /exit  "), InputKind::Command(c) if c == "/exit"));
    assert!(matches!(classify_input(" hello "), InputKind::Message(m) if m == "hello"));
}

#[test]
fn exit_and_quit_end_the_session() {
    let mut s = session();
    let mut m = ModeState::new(AgentMode::Auto);
    let mut model = "deepseek-chat".to_string();
    let (c, out) = handle_command("/exit", &mut s, &mut m, &mut model);
    assert!(matches!(c, Command::Exit));
    assert!(!out.keep_going);
    let (_, out) = handle_command("/QUIT", &mut s, &mut m, &mut model);
    assert!(!out.keep_going);
    assert!(out.output.is_empty());
}

#[test]
fn clear_resets_conversation() {
    let mut s = session();
    s.add_user_message("hi");
    let mut m = ModeState::new(AgentMode::Auto);
    let mut model = "deepseek-chat".to_string();
    let (_, out) = handle_command("/clear", &mut s, &mut m, &mut model);
    assert!(out.keep_going);
    assert_eq!(out.output, vec!["  --- cleared".to_string()]);
    assert_eq!(s.messages.len(), 1);
}

#[test]
fn model_tokens_and_info_commands() {
    let mut s = session();
    let mut m = ModeState::new(AgentMode::Auto);
    let mut model = "deepseek-chat".to_string();
    assert_eq!(model, "deepseek-chat");
    assert_eq!(handle_command("/model deepseek-reasoner", &mut s, &mut m, &mut model).1.output, vec!["  --- switched to deepseek-reasoner".to_string()]);
    assert_eq!(model, "deepseek-reasoner");
    assert_eq!(handle_command("/tokens", &mut s, &mut m, &mut model).1.output, vec!["  ~4 tokens".to_string()]);
    assert_eq!(handle_command("/memory", &mut s, &mut m, &mut model).1.output, vec!["  (memory not available in terminal mode yet)".to_string()]);
    assert_eq!(handle_command("/skill", &mut s, &mut m, &mut model).1.output, vec!["  (skills not available in terminal mode yet)".to_string()]);
    let tools = handle_command("/tools", &mut s, &mut m, &mut model).1.output;
    assert_eq!(tools.len(), 6);
    assert!(tools[1].starts_with("  read: Read a text file"));
}

#[test]
fn model_without_name_is_unknown() {
    let mut s = session();
    let mut m = ModeState::new(AgentMode::Auto);
    let mut model = "deepseek-chat".to_string();
    let (c, out) = handle_command("/model", &mut s, &mut m, &mut model);
    assert!(matches!(c, Command::Unknown(w) if w == "model"));
    assert_eq!(model, "deepseek-chat");
    assert_eq!(out.output, vec!["  unknown command: /model".to_string()]);
}

#[test]
fn mode_commands_switch_and_tell_the_model() {
    let mut s = session();
    let mut m = ModeState::new(AgentMode::Auto);
    let mut model = "deepseek-chat".to_string();
    let (_, out) = handle_command("/mode plan", &mut s, &mut m, &mut model);
    assert_eq!(m.current, AgentMode::Plan);
    assert_eq!(out.output, vec!["  mode: Auto → Plan".to_string()]);
    assert!(matches!(s.messages.last(), Some(Message::System { content }) if content.starts_with("You are in Plan mode.")));
    let (_, out) = handle_command("/Confirm", &mut s, &mut m, &mut model);
    assert_eq!(m.current, AgentMode::Auto);
    assert_eq!(out.output, vec!["  mode: Plan → Confirm".to_string()]);
    let (_, out) = handle_command("/confirm", &mut s, &mut m, &mut model);
    assert_eq!(m.current, AgentMode::Confirm);
    assert_eq!(out.output, vec!["  mode: Auto → confirm".to_string()]);
}

#[test]
fn unknown_and_empty_commands() {
    let mut s = session();
    let mut m = ModeState::new(AgentMode::Auto);
    let mut model = "deepseek-chat".to_string();
    assert_eq!(handle_command("/frobnicate now", &mut s, &mut m, &mut model).1.output, vec!["  unknown command: /frobnicate".to_string()]);
    let (c, out) = handle_command("/", &mut s, &mut m, &mut model);
    assert!(matches!(c, Command::Nothing));
    assert!(out.keep_going && out.output.is_empty());
}

#[test]
fn parse_then_apply() {
    let cmd = parse_command("/tokens");
    let mut s = session();
    let mut m = ModeState::new(AgentMode::Auto);
    let mut model = "deepseek-chat".to_string();
    let out = apply_command(&cmd, &mut s, &mut m, &mut model);
    assert!(out.keep_going);
}

#[test]
fn yes_no_answers() {
    assert!(answer_is_no("n"));
    assert!(answer_is_no(" N \n"));
    assert!(!answer_is_no("no"));
    assert!(!answer_is_no(""));
    assert!(!answer_is_no("y"));
}

#[test]
fn confirm_answers() {
    assert_eq!(classify_answer("y\n"), ConfirmAnswer::Yes);
    assert_eq!(classify_answer("\n"), ConfirmAnswer::Yes);
    assert_eq!(classify_answer(" n \n"), ConfirmAnswer::No);
    assert_eq!(classify_answer("E\n"), ConfirmAnswer::Edit);
    assert_eq!(classify_answer("edit"), ConfirmAnswer::Yes);
}

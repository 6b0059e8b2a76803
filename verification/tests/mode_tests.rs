use relay::mode::{mode_from_name, mode_name, AgentMode, ModeState};

#[test]
fn plan_allows_only_looking_tools() {
    let m = ModeState::new(AgentMode::Plan);
    assert!(m.is_tool_blocked("shell"));
    assert!(m.is_tool_blocked("write"));
    assert!(!m.is_tool_blocked("read"));
    assert!(!m.is_tool_blocked("glob"));
    assert!(!m.is_tool_blocked("grep"));
    assert!(!m.is_tool_blocked("use_skill"));
    assert!(m.is_tool_blocked("foo"));
    assert!(!ModeState::new(AgentMode::Auto).is_tool_blocked("shell"));
    assert!(!ModeState::new(AgentMode::Confirm).is_tool_blocked("write"));
}

#[test]
fn confirmation_by_mode() {
    assert!(!ModeState::new(AgentMode::Auto).needs_confirmation());
    assert!(ModeState::new(AgentMode::Confirm).needs_confirmation());
    let mut plan = ModeState::new(AgentMode::Plan);
    assert!(plan.is_currently_planning());
    assert!(!plan.needs_confirmation());
    plan.plan_content = Some("1. do it".to_string());
    assert!(plan.needs_confirmation());
    assert!(!plan.is_currently_planning());
}

#[test]
fn switching_away_from_plan_drops_the_plan() {
    let mut m = ModeState::new(AgentMode::Plan);
    m.plan_content = Some("plan".to_string());
    m.plan_approved = true;
    m.switch_to(AgentMode::Plan);
    assert_eq!(m.plan_content.as_deref(), Some("plan"));
    m.switch_to(AgentMode::Auto);
    assert_eq!(m.current, AgentMode::Auto);
    assert!(m.plan_content.is_none());
    assert!(!m.plan_approved);
}

#[test]
fn mode_names_and_descriptions() {
    assert_eq!(mode_from_name("confirm"), AgentMode::Confirm);
    assert_eq!(mode_from_name("plan"), AgentMode::Plan);
    assert_eq!(mode_from_name("auto"), AgentMode::Auto);
    assert_eq!(mode_from_name("Plan"), AgentMode::Auto);
    assert_eq!(mode_name(AgentMode::Confirm), "Confirm");
    let m = ModeState::new(AgentMode::Auto);
    assert_eq!(
        m.mode_description(),
        "You are in Auto mode. Execute tools freely to complete the task. Do not ask for confirmation."
    );
    assert_eq!(m.system_prompt_suffix(), m.mode_description());
}

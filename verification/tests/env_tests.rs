use relay::env::{build_system_prompt, shell_hint, EnvInfo};
use relay::memory::{MemoryEntry, MemoryStore, MemoryType};
use relay::mode::{AgentMode, ModeState};
use relay::skill::SkillRegistry;

fn sample_env() -> EnvInfo {
    EnvInfo {
        platform: "linux".to_string(),
        os: "Linux".to_string(),
        os_version: "6.1".to_string(),
        default_shell: "/bin/bash".to_string(),
        available_shells: vec!["/bin/bash".to_string()],
        python_version: " Python 3.11.2\n".to_string(),
        cwd: "/home/me/project".to_string(),
        tools: vec![("git".to_string(), true), ("docker".to_string(), false), ("rg".to_string(), true)],
    }
}

#[test]
fn test_build_prompt_contains_sections() {
    let env = sample_env();
    let mode = ModeState::new(AgentMode::Auto);
    let memory = MemoryStore { entries: Vec::new() };
    let skills = SkillRegistry { skills: Vec::new() };
    let prompt = build_system_prompt(&env, &mode, &memory, &skills);
    assert!(prompt.contains("Relay"));
    assert!(prompt.contains("Thinking First"));
}

#[test]
fn prompt_fills_every_placeholder() {
    let env = sample_env();
    let mode = ModeState::new(AgentMode::Plan);
    let memory = MemoryStore {
        entries: vec![MemoryEntry {
            name: "tea".to_string(),
            description: "likes tea".to_string(),
            content: "c".to_string(),
            memory_type: MemoryType::User,
        }],
    };
    let mut skills = SkillRegistry::new();
    skills.register("---\nname: deploy\ndescription: Ship it\n---\nbody", "p");
    let prompt = build_system_prompt(&env, &mode, &memory, &skills);
    assert!(!prompt.contains("{{"));
    assert!(prompt.contains("- OS: Linux (6.1)"));
    assert!(prompt.contains("git, rg"));
    assert!(prompt.contains("Python 3.11.2"));
    assert!(prompt.contains("Use POSIX shell syntax: ls, cat, grep, $VAR."));
    assert!(prompt.contains("You are in Plan mode."));
    assert!(prompt.contains("- [user] tea: likes tea"));
    assert!(prompt.contains("- deploy: Ship it"));
}

#[test]
fn prompt_without_memory_or_skills_says_none() {
    let prompt = build_system_prompt(
        &sample_env(),
        &ModeState::new(AgentMode::Auto),
        &MemoryStore::new(),
        &SkillRegistry::new(),
    );
    assert!(prompt.contains("## Auto Memory\n(none)"));
    assert!(prompt.contains("## Available Skills\n(none)"));
}

#[test]
fn shell_hints() {
    assert_eq!(
        shell_hint("C:\\Windows\\System32\\CMD.EXE"),
        "Use cmd.exe syntax: 'dir', 'type file.txt', 'echo %VAR%', 'findstr pattern file'."
    );
    assert_eq!(
        shell_hint("PowerShell"),
        "Use PowerShell syntax: 'Get-ChildItem', 'Get-Content', 'Select-String', '$env:VAR'."
    );
    assert_eq!(shell_hint("/bin/zsh"), "Use POSIX shell syntax: ls, cat, grep, $VAR.");
}

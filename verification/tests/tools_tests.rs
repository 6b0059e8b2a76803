use relay::config::expand_path;
use relay::mode::AgentMode;
use relay::skill::SkillRegistry;
use relay::tools::{
    _is_binary, active_tool_defs, append_capped_line, err, full_tool_defs, glob_split, glob_visit,
    grep_accepts_path, grep_file, parse_tool_call, plan_tool_defs, read_output, res,
    results_text, shell_flag, shell_output, shell_timeout_ms, use_skill_result,
    shell_wait_step, write_report, GlobPattern, ShellCapture, ShellStatus, ShellWaitEvent, TextRegex,
    ToolRequest,
};

#[test]
fn test_tool_defs_count() {
    assert_eq!(full_tool_defs().len(), 6);
    assert_eq!(plan_tool_defs().len(), 4);
}

#[test]
fn test_active_tool_defs() {
    assert_eq!(active_tool_defs(AgentMode::Auto).len(), 6);
    assert_eq!(active_tool_defs(AgentMode::Plan).len(), 4);
}

#[test]
fn tools_test_expand_tilde() {
    let p = expand_path("~/test.txt");
    assert!(p.contains("test.txt"));
}

#[test]
fn test_binary_detection() {
    assert!(_is_binary(&[0, 1, 2]));
    assert!(!_is_binary(&[b'h', b'e', b'l', b'l', b'o']));
}

#[test]
fn test_unknown_tool() {
    let result = parse_tool_call("nonexistent", "{}");
    assert!(result.is_err());
}

#[test]
fn unknown_tool_message() {
    match parse_tool_call("nonexistent", "{}") {
        Err(m) => assert_eq!(m, "unknown tool: nonexistent"),
        Ok(_) => panic!("expected an error"),
    }
}

#[test]
fn binary_detection_looks_at_first_8192_bytes() {
    let mut data = vec![b'a'; 9000];
    data[8191] = 0;
    assert!(_is_binary(&data));
    data[8191] = b'a';
    data[8192] = 0;
    assert!(!_is_binary(&data));
}

#[test]
fn plan_tools_are_read_only() {
    let names: Vec<String> = plan_tool_defs().into_iter().map(|d| d.function.name).collect();
    assert_eq!(names, vec!["read", "glob", "grep", "use_skill"]);
    let full: Vec<String> = full_tool_defs().into_iter().map(|d| d.function.name).collect();
    assert_eq!(full, vec!["shell", "read", "write", "glob", "grep", "use_skill"]);
    assert!(names.iter().all(|n| full.contains(n)));
    assert_eq!(active_tool_defs(AgentMode::Confirm).len(), 6);
}

#[test]
fn tool_defs_describe_parameters() {
    let defs = full_tool_defs();
    assert_eq!(defs[0].type_, "function");
    assert_eq!(defs[0].function.parameters.required, vec!["command".to_string()]);
    assert_eq!(defs[0].function.parameters.properties.len(), 2);
    assert_eq!(defs[2].function.parameters.required, vec!["path".to_string(), "content".to_string()]);
    assert_eq!(defs[4].function.parameters.properties[2].name, "glob");
}

#[test]
fn res_and_err_wrap() {
    assert_eq!(res("x".to_string()), Ok("x".to_string()));
    assert_eq!(err("bad"), Err("bad".to_string()));
}

#[test]
fn invalid_json_arguments() {
    match parse_tool_call("read", "{not json") {
        Err(m) => assert!(m.starts_with("invalid args: ")),
        Ok(_) => panic!("expected an error"),
    }
    assert!(parse_tool_call("read", "[1]").is_err());
}

#[test]
fn missing_parameter_is_reported() {
    match parse_tool_call("write", r#"{"path": "/tmp/x"}"#) {
        Err(m) => assert_eq!(m, "missing required param: content"),
        Ok(_) => panic!("expected an error"),
    }
    match parse_tool_call("read", r#"{"path": 3}"#) {
        Err(m) => assert_eq!(m, "missing required param: path"),
        Ok(_) => panic!("expected an error"),
    }
}

#[test]
fn valid_calls_are_read() {
    match parse_tool_call("shell", r#"{"command": "ls", "timeout_ms": 500}"#) {
        Ok(ToolRequest::Shell { command, timeout_ms }) => {
            assert_eq!(command, "ls");
            assert_eq!(timeout_ms, Some(500));
        }
        _ => panic!("expected a shell call"),
    }
    match parse_tool_call("shell", r#"{"command": "ls", "timeout_ms": -5}"#) {
        Ok(ToolRequest::Shell { timeout_ms, .. }) => assert_eq!(timeout_ms, None),
        _ => panic!("expected a shell call"),
    }
    match parse_tool_call("write", r#"{"path": "a.txt", "content": "hi"}"#) {
        Ok(ToolRequest::Write { path, content }) => {
            assert_eq!(path, "a.txt");
            assert_eq!(content, "hi");
        }
        _ => panic!("expected a write call"),
    }
    match parse_tool_call("use_skill", r#"{"name": "deploy"}"#) {
        Ok(ToolRequest::UseSkill { name }) => assert_eq!(name, "deploy"),
        _ => panic!("expected a skill call"),
    }
}

#[test]
fn grep_call_compiles_its_pattern() {
    match parse_tool_call("grep", r#"{"pattern": "fn \\w+", "path": "src", "glob": "*.rs"}"#) {
        Ok(ToolRequest::Grep { regex, path, glob }) => {
            assert_eq!(path, "src");
            assert_eq!(glob, "*.rs");
            let mut hits = Vec::new();
            grep_file(&regex, "a.rs", b"pub fn main()\nstruct S\n", &mut hits);
            assert_eq!(hits, vec!["a.rs:1:pub fn main()".to_string()]);
        }
        _ => panic!("expected a grep call"),
    }
    match parse_tool_call("grep", r#"{"pattern": "(", "path": "."}"#) {
        Err(m) => assert!(m.starts_with("invalid regex: ")),
        Ok(_) => panic!("expected an error"),
    }
}

#[test]
fn shell_timeout_is_capped() {
    assert_eq!(shell_timeout_ms(None, 15_000), 15_000);
    assert_eq!(shell_timeout_ms(Some(2_000), 15_000), 2_000);
    assert_eq!(shell_timeout_ms(Some(10_000_000), 15_000), 300_000);
    assert_eq!(shell_timeout_ms(None, 900_000), 300_000);
}

#[test]
fn shell_flag_by_shell() {
    assert_eq!(shell_flag("sh"), "-c");
    assert_eq!(shell_flag("C:\\Windows\\system32\\cmd.exe"), "/C");
}

#[test]
fn shell_report_layout() {
    assert_eq!(shell_output("hello relay\n\n", "", ShellStatus::Success), "hello relay");
    assert_eq!(
        shell_output("out\n", "(stderr)\nwarn\n", ShellStatus::Failed(Some(2))),
        "out\n(stderr)\nwarn\n\n[exit code: 2]"
    );
    assert_eq!(shell_output("", "", ShellStatus::Failed(None)), "\n[exit code: -1]");
    assert_eq!(shell_output("x", "", ShellStatus::Failed(Some(-3))), "x\n[exit code: -3]");
    assert_eq!(shell_output("x", "", ShellStatus::Unknown), "x\n[timed out]");
}

#[test]
fn captured_output_stops_at_limit() {
    let mut out: Vec<char> = Vec::new();
    append_capped_line(&mut out, "abc", 5);
    append_capped_line(&mut out, "def", 5);
    append_capped_line(&mut out, "ghi", 5);
    assert_eq!(out.iter().collect::<String>(), "abc\ndef\n");
}

#[test]
fn read_output_cases() {
    assert_eq!(read_output(b"plain text"), Ok("plain text".to_string()));
    let mut bin = vec![b'a'; 9000];
    bin[10] = 0;
    assert_eq!(read_output(&bin), Err("binary file detected, not reading".to_string()));
    assert_eq!(read_output(&[0, 1, 2]), Err("binary file detected, not reading".to_string()));
    let big = vec![b'z'; 100_005];
    let r = read_output(&big).unwrap();
    assert_eq!(r, format!("{}...(truncated at 100000 chars)", "z".repeat(100_000)));
}

#[test]
fn lossy_decoding_replaces_invalid_bytes() {
    assert_eq!(read_output(&[b'a', 0xff, b'b']), Ok("a\u{fffd}b".to_string()));
}

#[test]
fn write_report_counts_bytes() {
    assert_eq!(write_report("héllo", "/tmp/a"), "wrote 6 bytes to /tmp/a");
}

#[test]
fn use_skill_results() {
    assert_eq!(use_skill_result(None, "x"), Err("skill system not initialized".to_string()));
    let mut reg = SkillRegistry::new();
    reg.register("---\nname: x\ndescription: d\n---\nbody", "p");
    assert_eq!(use_skill_result(Some(&reg), "x"), Ok("body".to_string()));
    assert_eq!(use_skill_result(Some(&reg), "y"), Err("skill 'y' not found".to_string()));
}

#[test]
fn results_text_lists_or_reports_none() {
    assert_eq!(results_text(&vec![]), "(no matches)");
    assert_eq!(results_text(&vec!["a".to_string(), "b".to_string()]), "a\nb");
}

#[test]
fn glob_visit_collects_matches_up_to_200() {
    let pat = GlobPattern::new("*.rs");
    let mut results = Vec::new();
    assert!(glob_visit(&mut results, &pat, Some("main.rs"), "./src/main.rs"));
    assert!(glob_visit(&mut results, &pat, Some("notes.md"), "./notes.md"));
    assert!(glob_visit(&mut results, &pat, None, "./odd"));
    assert_eq!(results, vec!["./src/main.rs".to_string()]);
    let mut full: Vec<String> = (0..200).map(|i| i.to_string()).collect();
    assert!(!glob_visit(&mut full, &pat, Some("x.rs"), "./x.rs"));
    assert_eq!(full.len(), 200);
    assert!(GlobPattern::new("[").is_none());
}

#[test]
fn grep_filter_by_glob() {
    assert_eq!(grep_accepts_path("", "anything"), Ok(true));
    assert_eq!(grep_accepts_path("*.rs", "src/lib.rs"), Ok(true));
    assert_eq!(grep_accepts_path("*.rs", "README.md"), Ok(false));
    assert_eq!(grep_accepts_path("[", "x"), Err("invalid glob".to_string()));
}

#[test]
fn grep_file_reports_matching_lines() {
    let re = match TextRegex::new("needle") {
        Ok(r) => r,
        Err(e) => panic!("{e}"),
    };
    let mut hits = Vec::new();
    grep_file(&re, "f.txt", b"hay\nneedle one\r\nhay\nneedle two", &mut hits);
    assert_eq!(hits, vec!["f.txt:2:needle one".to_string(), "f.txt:4:needle two".to_string()]);
    let mut bin = vec![b'n'; 9000];
    bin[0] = 0;
    grep_file(&re, "bin", &bin, &mut hits);
    assert_eq!(hits.len(), 2);
    let mut many: Vec<String> = (0..199).map(|i| i.to_string()).collect();
    grep_file(&re, "g", b"needle\nneedle\nneedle", &mut many);
    assert_eq!(many.len(), 200);
    assert_eq!(many[199], "g:1:needle");
}

#[test]
fn glob_scope_of_patterns() {
    assert_eq!(glob_split("/nonexistent_dir_xyz/*.rs"), Some(("/nonexistent_dir_xyz".to_string(), "*.rs".to_string())));
    assert_eq!(glob_split("*.rs"), Some((".".to_string(), "*.rs".to_string())));
    assert_eq!(glob_split("src/.."), Some(("src".to_string(), "*".to_string())));
    assert_eq!(glob_split("/"), None);
}

#[test]
fn read_cuts_after_whole_characters() {
    let mut text = "a".repeat(99_999).into_bytes();
    text.extend_from_slice("é and more".as_bytes());
    let r = read_output(&text).unwrap();
    assert_eq!(r, format!("{}é...(truncated at 100000 chars)", "a".repeat(99_999)));
}

#[test]
fn shell_wait_takes_stderr_then_stdout() {
    let mut c = ShellCapture { stdout: String::new(), stderr: String::new() };
    assert!(shell_wait_step(&mut c, ShellWaitEvent::Quiet));
    assert!(shell_wait_step(&mut c, ShellWaitEvent::Message("(stderr)\nboom".to_string())));
    assert_eq!(c.stderr, "(stderr)\nboom");
    assert!(!shell_wait_step(&mut c, ShellWaitEvent::Quiet));
    assert!(!shell_wait_step(&mut c, ShellWaitEvent::Message("out".to_string())));
    assert_eq!(c.stdout, "out");
    assert!(!shell_wait_step(&mut c, ShellWaitEvent::Closed));
}

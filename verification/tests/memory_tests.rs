use relay::memory::{parse_index_line, parse_memory_file, parse_memory_index, MemoryEntry, MemoryStore, MemoryType};

#[test]
fn test_parse_memory_file_with_frontmatter() {
    let content = "---\ntype: user\n---\nThis is memory content";
    let (mtype, body) = parse_memory_file(content);
    assert!(matches!(mtype, MemoryType::User));
    assert_eq!(body, "This is memory content");
}

#[test]
fn test_parse_memory_file_no_frontmatter() {
    let content = "Just content";
    let (mtype, body) = parse_memory_file(content);
    assert!(matches!(mtype, MemoryType::Reference));
    assert_eq!(body, "Just content");
}

#[test]
fn test_memory_type_from_str() {
    assert!(matches!(MemoryType::from_str("user"), MemoryType::User));
    assert!(matches!(MemoryType::from_str("feedback"), MemoryType::Feedback));
    assert!(matches!(MemoryType::from_str("project"), MemoryType::Project));
    assert!(matches!(MemoryType::from_str("reference"), MemoryType::Reference));
    assert!(matches!(MemoryType::from_str("unknown"), MemoryType::Reference));
}

#[test]
fn test_new_store_empty() {
    let store = MemoryStore::new();
    assert!(store.entries.is_empty());
    assert!(store.is_empty());
}

#[test]
fn memory_type_names_round_trip() {
    for t in [MemoryType::User, MemoryType::Feedback, MemoryType::Project, MemoryType::Reference] {
        assert_eq!(MemoryType::from_str(t.as_str()), t);
    }
    assert_eq!(MemoryType::Feedback.as_str(), "feedback");
}

#[test]
fn frontmatter_without_closing_marker_is_reference() {
    let (t, body) = parse_memory_file("---\ntype: user\nno end");
    assert_eq!(t, MemoryType::Reference);
    assert_eq!(body, "---\ntype: user\nno end");
}

#[test]
fn frontmatter_after_leading_blank_lines() {
    let (t, body) = parse_memory_file("---\nname: x\ntype: project\n---\n\n  body text  \n");
    assert_eq!(t, MemoryType::Project);
    assert_eq!(body, "body text");
}

#[test]
fn index_lines_are_parsed() {
    let line: Vec<char> = "- [Build notes](build.md) — how to build".chars().collect();
    let e = parse_index_line(&line).unwrap();
    assert_eq!(e.name, "Build notes");
    assert_eq!(e.file_name, "build.md");
    assert_eq!(e.description, "how to build");
    let other: Vec<char> = "# heading".chars().collect();
    assert!(parse_index_line(&other).is_none());
}

#[test]
fn index_keeps_entry_lines_only() {
    let idx = parse_memory_index("# Memory\n- [A](a.md) — first\n\n- [B](b.md) — second\n");
    assert_eq!(idx.len(), 2);
    assert_eq!(idx[1].file_name, "b.md");
}

#[test]
fn store_summary_lists_entries() {
    let mut store = MemoryStore::new();
    assert_eq!(store.index_summary(), "(no memory loaded)");
    store.entries.push(MemoryEntry {
        name: "n".to_string(),
        description: "likes tea".to_string(),
        content: "c".to_string(),
        memory_type: MemoryType::User,
    });
    assert!(!store.is_empty());
    assert_eq!(store.entries[0].memory_type_str(), "user");
    assert_eq!(store.index_summary(), "- [user] likes tea");
}

#[test]
fn memory_files_the_parser_takes() {
    assert!(relay::memory::accepts_memory_file("---\ntype: user\n---\nx"));
    assert!(relay::memory::accepts_memory_file("plain"));
    assert!(relay::memory::accepts_memory_file(" ---é"));
    assert!(!relay::memory::accepts_memory_file("\u{85}\u{3000}---x"));
}

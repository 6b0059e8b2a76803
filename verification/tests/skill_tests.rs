use relay::skill::{parse_skill, Skill, SkillRegistry};

#[test]
fn test_parse_skill() {
    let content = r#"---
name: test-skill
description: A test skill
---
This is the skill body"#;
    let skill = parse_skill(content, "SKILL.md");
    assert!(skill.is_some());
    let s = skill.unwrap();
    assert_eq!(s.name, "test-skill");
    assert_eq!(s.description, "A test skill");
    assert_eq!(s.content, "This is the skill body");
}

#[test]
fn test_parse_skill_no_frontmatter() {
    let content = "Just content";
    let skill = parse_skill(content, "SKILL.md");
    assert!(skill.is_none());
}

#[test]
fn test_find_skill() {
    let mut registry = SkillRegistry::new();
    registry.skills.push(Skill {
        name: "alpha".into(),
        description: "Alpha skill".into(),
        content: "content".into(),
        source_path: ".".into(),
    });
    assert!(registry.find("alpha").is_some());
    assert!(registry.find("beta").is_none());
}

#[test]
fn skill_without_name_is_refused() {
    assert!(parse_skill("---\ndescription: d\n---\nbody", "SKILL.md").is_none());
    assert!(parse_skill("---\nname: x\nno closing marker", "SKILL.md").is_none());
}

#[test]
fn register_then_find_and_list() {
    let mut r = SkillRegistry::new();
    assert!(r.is_empty());
    r.register("---\nname: deploy\ndescription: Ship it\n---\nSteps...", "/skills/deploy/SKILL.md");
    r.register("no frontmatter", "/skills/x/SKILL.md");
    r.register("---\nname: deploy\ndescription: Other\n---\nSecond", "/skills/d2/SKILL.md");
    assert_eq!(r.skills.len(), 2);
    assert_eq!(r.load_content("deploy").unwrap(), "Steps...");
    assert_eq!(r.find("deploy").unwrap().source_path, "/skills/deploy/SKILL.md");
    assert!(r.load_content("missing").is_none());
    assert_eq!(r.available_list(), "- deploy: Ship it\n- deploy: Other");
}

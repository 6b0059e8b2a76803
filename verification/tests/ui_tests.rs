use relay::ui::truncate_output;

#[test]
fn truncation_marks_long_text() {
    assert_eq!(truncate_output("short", 10), "short");
    assert_eq!(truncate_output("exactly", 7), "exactly");
    assert_eq!(truncate_output("abcdefgh", 3), "abc…(truncated)");
    assert_eq!(truncate_output("héllo", 3), "hé…(truncated)");
    assert_eq!(truncate_output("héllo", 2), "h…(truncated)");
    assert_eq!(truncate_output("é", 1), "…(truncated)");
    assert_eq!(truncate_output("hello world", 5), "hello…(truncated)");
}

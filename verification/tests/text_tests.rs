use relay::text::{
    byte_count, char_boundary_exec, decimal_string, join_strings, replace_all_chars, split_lines,
    split_words, take_chars, trim_chars,
};

fn chars(s: &str) -> Vec<char> {
    s.chars().collect()
}

fn strings(v: Vec<Vec<char>>) -> Vec<String> {
    v.into_iter().map(|w| w.into_iter().collect()).collect()
}

#[test]
fn words_split_on_whitespace() {
    assert_eq!(strings(split_words(&chars("  mode   plan\tnow \n"))), vec!["mode", "plan", "now"]);
    assert!(split_words(&chars("   ")).is_empty());
}

#[test]
fn lines_like_str_lines() {
    assert_eq!(strings(split_lines(&chars("a\r\nb\n\nc\n"))), vec!["a", "b", "", "c"]);
    assert!(split_lines(&chars("")).is_empty());
}

#[test]
fn trimming_and_replacing() {
    assert_eq!(trim_chars(&chars("\u{3000} x y \n")).into_iter().collect::<String>(), "x y");
    assert_eq!(
        replace_all_chars(&chars("a{{X}}b{{X}}"), &chars("{{X}}"), &chars("-")).into_iter().collect::<String>(),
        "a-b-"
    );
}

#[test]
fn numbers_and_joins() {
    assert_eq!(decimal_string(0), "0");
    assert_eq!(decimal_string(120034), "120034");
    assert_eq!(join_strings(&vec!["a".to_string(), "b".to_string()], ", "), "a, b");
    assert_eq!(take_chars("héllo", 2), "hé");
}

#[test]
fn byte_positions() {
    let v = chars("aé€😀");
    assert_eq!(byte_count(&v), 1 + 2 + 3 + 4);
    assert_eq!(char_boundary_exec(&v, 3), Some(2));
    assert_eq!(char_boundary_exec(&v, 2), None);
    assert_eq!(char_boundary_exec(&v, 10), Some(4));
    assert_eq!(char_boundary_exec(&v, 11), None);
}

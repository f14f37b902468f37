use coder::errors::CoderError;
use coder::text::split_whitespace;
use coder::text::trim_of;
use coder::text::u64_to_string;
use coder::utils::strip_thinking;

#[test]
fn test_strip_thinking() {
    let input = r#"Something else. <think>
This should be removed
</think>
End"#;
    let expected = Some("Something else. \nEnd".to_string());

    let content = strip_thinking(input);
    assert!(content.is_some());
    assert_eq!(content, expected);
}

#[test]
fn strip_thinking_keeps_text_without_delimiters() {
    assert_eq!(strip_thinking("plain answer").as_deref(), Some("plain answer"));
    assert_eq!(
        strip_thinking("only an opening <think> here").as_deref(),
        Some("only an opening <think> here")
    );
}

#[test]
fn strip_thinking_refuses_mismatched_delimiters() {
    assert!(strip_thinking("</think>before<think>").is_none());
}

#[test]
fn whitespace_split_drops_empty_words() {
    let words = split_whitespace("  cargo   clippy --all ");
    assert_eq!(
        words,
        vec!["cargo".to_string(), "clippy".to_string(), "--all".to_string()]
    );
    assert!(split_whitespace("   ").is_empty());
    assert!(split_whitespace("").is_empty());
}

#[test]
fn trimming_removes_whitespace_at_both_ends() {
    assert_eq!(trim_of("  hello \n"), "hello");
    assert_eq!(trim_of("\u{a0}x\u{a0}"), "x");
    assert_eq!(trim_of("   "), "");
}

#[test]
fn decimal_rendering_is_exact() {
    assert_eq!(u64_to_string(0), "0");
    assert_eq!(u64_to_string(7), "7");
    assert_eq!(u64_to_string(1234567890), "1234567890");
    assert_eq!(u64_to_string(u64::MAX), "18446744073709551615");
}

#[test]
fn error_messages_are_exposed() {
    let e = CoderError::GitError("push failed".to_string());
    assert_eq!(e.message(), "push failed");
}

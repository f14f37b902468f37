use coder::prompt::Prompt;

#[test]
fn test_create_review_prompt_empty_contents() {
    let requested_files = vec!["file1.rs".to_string()];
    let contents = Vec::new();

    let prompt = Prompt::create_review_prompt(&requested_files, &contents);

    let expected = r#"I have retrieved the requested files. Here are their contents:


Please review these files and suggest specific changes needed to fix the issue. Be precise and include the full corrected code if needed. If there are no files content simply answer that file contents is not provided.
"#;

    assert_eq!(prompt, expected);
}

#[test]
fn test_create_review_prompt_no_files() {
    let requested_files: Vec<String> = vec![];
    let contents = Vec::new();

    let prompt = Prompt::create_review_prompt(&requested_files, &contents);

    let expected = r#"I have retrieved the requested files. Here are their contents:


Please review these files and suggest specific changes needed to fix the issue. Be precise and include the full corrected code if needed. If there are no files content simply answer that file contents is not provided.
"#;

    assert_eq!(prompt, expected);
}

#[test]
fn review_prompt_lists_retrieved_files_in_request_order() {
    let requested_files = vec!["a.rs".to_string(), "missing.rs".to_string(), "b.rs".to_string()];
    let contents = vec![
        ("b.rs".to_string(), "fn b() {}".to_string()),
        ("a.rs".to_string(), "fn a() {}".to_string()),
    ];
    let prompt = Prompt::create_review_prompt(&requested_files, &contents);
    let expected = "I have retrieved the requested files. Here are their contents:\n\n\
FILE: a.rs\n```rust\nfn a() {}\n```\n\n\
FILE: b.rs\n```rust\nfn b() {}\n```\n\n\
\nPlease review these files and suggest specific changes needed to fix the issue. Be precise and include the full corrected code if needed. If there are no files content simply answer that file contents is not provided.\n";
    assert_eq!(prompt, expected);
}

#[test]
fn system_message_is_fixed() {
    assert_eq!(
        Prompt::get_system_message(),
        "You are a software engineer tasked with reviewing and fixing a GitHub issue."
    );
}

#[test]
fn initial_prompt_embeds_issue_and_tree() {
    let prompt = Prompt::create_initial_prompt(".\n", "A bug", "It breaks");
    assert!(prompt.starts_with("\n    ISSUE:\n    Title: A bug\n    Description: It breaks\n"));
    assert!(prompt.contains("PROJECT STRUCTURE:\n    .\n"));
    assert!(prompt.ends_with("I will provide the content of each requested file before we proceed with the fix."));
}

#[test]
fn bug_report_suggestion_quotes_the_body() {
    let prompt = Prompt::create_improved_bug_report_suggestion("line one\nline two", "A bug");
    assert!(prompt.contains("**Title**: A bug\n"));
    assert!(prompt.contains("**Description**: \"line one\\nline two\"\n"));
    assert!(prompt.ends_with("(y/N)\n\n"));
}

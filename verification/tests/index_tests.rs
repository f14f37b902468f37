use coder::index::build_content;
use coder::index::build_tree;
use coder::index::updated_gitignore;
use coder::index::TreeEntry;

#[test]
fn tree_renders_depth_and_branch_marks() {
    let entries = vec![
        TreeEntry { depth: 1, name: "src".to_string() },
        TreeEntry { depth: 2, name: "main.rs".to_string() },
        TreeEntry { depth: 1, name: "Cargo.toml".to_string() },
    ];
    let tree = build_tree(&entries);
    assert_eq!(tree, ".\n├── src\n│   ├── main.rs\n└── Cargo.toml\n");
}

#[test]
fn tree_of_no_entries_is_the_root_alone() {
    let tree = build_tree(&Vec::new());
    assert_eq!(tree, ".\n");
}

#[test]
fn content_snapshot_indents_each_line_under_its_path() {
    let files = vec![("src/main.rs".to_string(), "fn main() {}\n".to_string())];
    let content = build_content(&files);
    assert_eq!(content, "content:\n  src/main.rs: |\n    fn main() {}\n");
}

#[test]
fn content_snapshot_splits_lines_and_strips_carriage_returns() {
    let files = vec![("a.txt".to_string(), "one\r\ntwo".to_string())];
    let content = build_content(&files);
    assert_eq!(content, "content:\n  a.txt: |\n    one\n    two\n");
}

#[test]
fn gitignore_is_created_when_absent() {
    assert_eq!(updated_gitignore(None), ".coder\n");
}

#[test]
fn gitignore_entry_is_appended_after_a_final_line_break() {
    assert_eq!(updated_gitignore(Some("target\n")), "target\n.coder\n");
    assert_eq!(updated_gitignore(Some("target")), "target\n.coder\n");
    assert_eq!(updated_gitignore(Some("")), "\n.coder\n");
}

#[test]
fn gitignore_already_mentioning_the_directory_is_unchanged() {
    assert_eq!(updated_gitignore(Some(".coder\ntarget\n")), ".coder\ntarget\n");
}

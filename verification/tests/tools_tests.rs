use coder::config::Config;
use coder::errors::CoderError;
use coder::tools::code_read;
use coder::tools::code_read_envelope;
use coder::tools::code_write_envelope;
use coder::tools::command_envelope;
use coder::tools::command_failure;
use coder::tools::commit_message;
use coder::tools::docs_reference;
use coder::tools::docs_reference_envelope;
use coder::tools::done;
use coder::tools::done_envelope;
use coder::tools::get_tools;
use coder::tools::issue_envelope;
use coder::tools::plan_tool_call;
use coder::tools::prepare_command;
use coder::tools::pull_request_cleanup;
use coder::tools::pull_request_envelope;
use coder::tools::pull_request_preparation;
use coder::tools::CodeReadArgs;
use coder::tools::CommandType;
use coder::tools::Issue;
use coder::tools::PullRequestArgs;
use coder::tools::PullRequestInfo;
use coder::tools::Snapshot;
use coder::tools::ToolAction;
use coder::tools::ToolArgs;
use coder::tools::Tools;
use coder::tools::VcsStep;

#[test]
fn tool_names_round_trip() {
    let tools = [
        Tools::IssueValidate,
        Tools::IssuePull,
        Tools::CodeRead,
        Tools::CodeWrite,
        Tools::CodeAnalyse,
        Tools::CodeLint,
        Tools::CodeTest,
        Tools::PullRequest,
        Tools::DocsReference,
        Tools::Done,
    ];
    for t in tools {
        let parsed = Tools::from_str(t.as_str()).unwrap();
        assert_eq!(parsed, t);
    }
}

#[test]
fn unknown_tool_name_is_a_hard_error() {
    // A tool call named outside the registry is rejected at parse time,
    // before any executor could run.
    let r = Tools::from_str("delete_repo");
    match r {
        Err(CoderError::ConfigError(m)) => assert_eq!(m, "Invalid tool: delete_repo"),
        _ => panic!("expected a parse error"),
    }
}

#[test]
fn registry_lists_the_ten_tools_in_order() {
    let tools = get_tools();
    let names: Vec<&str> = tools.iter().map(|d| d.tool.as_str()).collect();
    assert_eq!(
        names,
        vec![
            "issue_validate",
            "issue_pull",
            "code_lint",
            "code_analyse",
            "code_test",
            "docs_reference",
            "code_read",
            "code_write",
            "pull_request",
            "done",
        ]
    );
    assert_eq!(tools[0].description, "Validate the issue");
    assert_eq!(tools[0].parameters.len(), 2);
    assert_eq!(tools[0].parameters[0].name, "scm");
    assert_eq!(tools[2].parameters.len(), 0);
    assert_eq!(tools[8].parameters.len(), 4);
    assert!(tools[8].parameters.iter().all(|p| p.required));
}

#[test]
fn done_and_docs_reference_always_succeed() {
    assert!(done().is_ok());
    assert!(docs_reference("verus").is_ok());
}

#[test]
fn envelope_wire_form_matches_the_contracted_shape() {
    let env = done_envelope();
    assert_eq!(
        env.to_json(),
        "{\"status\":\"ok\",\"message\":\"Task completed\",\"result\":null,\"retry\":false}"
    );
    let env = docs_reference_envelope();
    assert_eq!(
        env.to_json(),
        "{\"status\":\"ok\",\"message\":null,\"result\":null,\"retry\":false}"
    );
}

#[test]
fn string_results_are_escaped_like_json() {
    let env = code_read_envelope("fn main() {}\n\t\"quoted\"\\\u{1}");
    assert_eq!(
        env.result.as_deref(),
        Some("\"fn main() {}\\n\\t\\\"quoted\\\"\\\\\\u0001\"")
    );
    assert_eq!(
        env.to_json(),
        "{\"status\":\"ok\",\"message\":\"Code read\",\"result\":\"fn main() {}\\n\\t\\\"quoted\\\"\\\\\\u0001\",\"retry\":false}"
    );
}

#[test]
fn code_write_signals_retry_exactly_when_nothing_changed() {
    // A write that produced no filesystem diff had no observable effect,
    // so the envelope asks for a retry; a write that changed the file
    // does not.
    assert!(code_write_envelope(false).retry);
    assert!(!code_write_envelope(true).retry);
    assert_eq!(code_write_envelope(true).message.as_deref(), Some("Code written"));
}

#[test]
fn issue_envelope_carries_the_sanitized_issue() {
    let issue = Issue {
        number: 14,
        title: "A \"bug\"".to_string(),
        body: None,
    };
    let env = issue_envelope(&issue, true);
    assert_eq!(env.message.as_deref(), Some("Issue validated"));
    assert_eq!(
        env.result.as_deref(),
        Some("{\"number\":14,\"title\":\"A \\\"bug\\\"\",\"body\":null}")
    );
    let env = issue_envelope(&issue, false);
    assert_eq!(env.message.as_deref(), Some("Issue pulled"));
}

#[test]
fn pull_request_envelope_carries_the_sanitized_request() {
    let pr = PullRequestInfo {
        number: 7,
        title: Some("fix".to_string()),
        body: None,
    };
    let env = pull_request_envelope(&pr);
    assert_eq!(env.message.as_deref(), Some("Pull request created"));
    assert_eq!(
        env.result.as_deref(),
        Some("{\"number\":7,\"title\":\"fix\",\"body\":null}")
    );
}

#[test]
fn commit_message_names_the_issue() {
    assert_eq!(commit_message(42), "fix: address issue #42");
    assert_eq!(commit_message(0), "fix: address issue #0");
    assert_eq!(
        commit_message(18446744073709551615),
        "fix: address issue #18446744073709551615"
    );
}

#[test]
fn snapshot_read_serves_cached_content() {
    let snapshot = Snapshot {
        files: vec![("src/main.rs".to_string(), "fn main() {}\n".to_string())],
    };
    assert_eq!(
        code_read(Some(&snapshot), "src/main.rs").unwrap(),
        "fn main() {}\n"
    );
}

#[test]
fn snapshot_read_distinguishes_a_missing_path() {
    // The snapshot itself is well-formed; only this path has no entry, and
    // the error says so rather than reporting a missing or malformed
    // snapshot.
    let snapshot = Snapshot {
        files: vec![("src/lib.rs".to_string(), "".to_string())],
    };
    match code_read(Some(&snapshot), "src/missing.rs") {
        Err(CoderError::ConfigError(m)) => {
            assert_eq!(m, "Content not found for path: src/missing.rs")
        }
        _ => panic!("expected the path to be reported missing"),
    }
}

#[test]
fn snapshot_read_reports_a_missing_snapshot() {
    match code_read(None, "src/main.rs") {
        Err(CoderError::ConfigError(m)) => assert_eq!(m, "Index file not found"),
        _ => panic!("expected the snapshot to be reported missing"),
    }
}

#[test]
fn snapshot_store_replaces_cached_content() {
    // A write must keep the snapshot and the live file in sync: a read
    // after the write serves the new content, not the stale cache.
    let mut snapshot = Snapshot {
        files: vec![
            ("src/main.rs".to_string(), "fn main() {}\n".to_string()),
            ("src/lib.rs".to_string(), "pub fn lib() {}\n".to_string()),
        ],
    };
    snapshot.store("src/main.rs", "fn main() { fixed(); }\n");
    assert_eq!(
        code_read(Some(&snapshot), "src/main.rs").unwrap(),
        "fn main() { fixed(); }\n"
    );
    assert_eq!(code_read(Some(&snapshot), "src/lib.rs").unwrap(), "pub fn lib() {}\n");
    assert_eq!(snapshot.files.len(), 2);
}

#[test]
fn snapshot_store_adds_a_new_path() {
    let mut snapshot = Snapshot {
        files: vec![("src/main.rs".to_string(), "fn main() {}\n".to_string())],
    };
    snapshot.store("src/new.rs", "fn new() {}");
    assert_eq!(code_read(Some(&snapshot), "src/new.rs").unwrap(), "fn new() {}");
    assert_eq!(code_read(Some(&snapshot), "src/main.rs").unwrap(), "fn main() {}\n");
}

#[test]
fn prepare_command_splits_the_configured_string() {
    let config = Config::default();
    let plan = prepare_command(&config.language, &CommandType::Lint).unwrap();
    assert_eq!(plan.command, "cargo fmt");
    assert_eq!(plan.program, "cargo");
    assert_eq!(plan.args, vec!["fmt".to_string()]);
    let plan = prepare_command(&config.language, &CommandType::Analyse).unwrap();
    assert_eq!(plan.program, "cargo");
    assert_eq!(plan.args, vec!["clippy".to_string()]);
}

#[test]
fn prepare_command_refuses_an_unconfigured_kind() {
    let mut config = Config::default();
    config.language.linter = "".to_string();
    match prepare_command(&config.language, &CommandType::Lint) {
        Err(CoderError::ConfigError(m)) => {
            assert_eq!(m, "No lint command configured for language rust")
        }
        _ => panic!("expected a configuration error"),
    }
    config.language.test_command = "   ".to_string();
    match prepare_command(&config.language, &CommandType::Test) {
        Err(CoderError::ConfigError(m)) => assert_eq!(m, "Empty command"),
        _ => panic!("expected a configuration error"),
    }
}

#[test]
fn command_failure_carries_the_captured_stderr() {
    let e = command_failure("cargo fmt", "warning: unused import");
    match e {
        CoderError::CommandError(m) => {
            assert_eq!(m, "Command 'cargo fmt' failed: warning: unused import")
        }
        _ => panic!("expected a command error"),
    }
}

#[test]
fn command_envelope_returns_stdout_verbatim() {
    let env = command_envelope("cargo test", "ok\n");
    assert_eq!(env.message.as_deref(), Some("Command 'cargo test' succeeded"));
    assert_eq!(env.result.as_deref(), Some("\"ok\\n\""));
    assert!(!env.retry);
}

#[test]
fn dispatch_requires_arguments_where_the_schema_does() {
    let config = Config::default();
    match plan_tool_call(&Tools::CodeRead, None, &config) {
        Err(CoderError::MissingArguments(m)) => assert_eq!(m, "CodeRead requires arguments"),
        _ => panic!("expected a missing-arguments error"),
    }
    let args = ToolArgs::Read(CodeReadArgs { path: "src/lib.rs".to_string() });
    match plan_tool_call(&Tools::CodeRead, Some(args), &config) {
        Ok(ToolAction::ReadFile { path }) => assert_eq!(path, "src/lib.rs"),
        _ => panic!("expected a read action"),
    }
}

#[test]
fn dispatch_plans_the_pull_request() {
    let config = Config::default();
    let args = ToolArgs::Pr(PullRequestArgs {
        branch_name: "fix-14".to_string(),
        issue: 14,
        title: "t".to_string(),
        body: "b".to_string(),
    });
    match plan_tool_call(&Tools::PullRequest, Some(args), &config) {
        Ok(ToolAction::CreatePullRequest { branch_name, issue, commit, .. }) => {
            assert_eq!(branch_name, "fix-14");
            assert_eq!(issue, 14);
            assert_eq!(commit, "fix: address issue #14");
        }
        _ => panic!("expected a pull-request action"),
    }
    match plan_tool_call(&Tools::Done, None, &config) {
        Ok(ToolAction::Finish) => {}
        _ => panic!("expected the terminal action"),
    }
}

#[test]
fn pull_request_steps_are_ordered() {
    let prep = pull_request_preparation("fix-14", 14);
    assert_eq!(prep.len(), 4);
    assert!(matches!(&prep[0], VcsStep::CreateBranch(b) if b == "fix-14"));
    assert!(matches!(&prep[1], VcsStep::StageAll));
    assert!(matches!(&prep[2], VcsStep::Commit(m) if m == "fix: address issue #14"));
    assert!(matches!(&prep[3], VcsStep::Push(b) if b == "fix-14"));
    let cleanup = pull_request_cleanup("fix-14");
    assert_eq!(cleanup.len(), 2);
    assert!(matches!(&cleanup[0], VcsStep::CheckoutBase));
    assert!(matches!(&cleanup[1], VcsStep::DeleteBranch(b) if b == "fix-14"));
}

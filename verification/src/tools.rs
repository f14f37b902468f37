//! The tool catalog and the executor-side logic of tool invocations.
//!
//! Tools are a closed set of capabilities advertised to the model. Parsing a
//! tool name is exhaustive over that set: every catalog name maps back to its
//! tag, and any other string is rejected with an error rather than a
//! fallthrough.

use vstd::prelude::*;

use crate::config::LanguageConfig;
use crate::errors::CoderError;
use crate::json::json_string;
use crate::json::json_string_of;
use crate::text::dec_rep;
use crate::text::split_ws;
use crate::text::str_eq;

verus! {

/// The closed set of capabilities the model may invoke.
#[derive(Debug, Clone, Copy, PartialEq, Eq, Structural)]
pub enum Tools {
    /// Validate issue format.
    IssueValidate,
    /// Pull an issue from the repository.
    IssuePull,
    /// Read file content from the workspace snapshot.
    CodeRead,
    /// Write file content.
    CodeWrite,
    /// Analyse code (language-specific).
    CodeAnalyse,
    /// Lint code (language-specific).
    CodeLint,
    /// Run tests (language-specific).
    CodeTest,
    /// Create a pull request with the fixes.
    PullRequest,
    /// Get documentation references.
    DocsReference,
    /// Done with the task.
    Done,
}

/// The string under which each tool is advertised and invoked.
pub open spec fn tool_name(t: Tools) -> Seq<char> {
    match t {
        Tools::IssueValidate => "issue_validate"@,
        Tools::IssuePull => "issue_pull"@,
        Tools::PullRequest => "pull_request"@,
        Tools::CodeRead => "code_read"@,
        Tools::CodeAnalyse => "code_analyse"@,
        Tools::CodeLint => "code_lint"@,
        Tools::CodeWrite => "code_write"@,
        Tools::CodeTest => "code_test"@,
        Tools::DocsReference => "docs_reference"@,
        Tools::Done => "done"@,
    }
}

/// The tool whose name is the given string, if any.
pub open spec fn parse_tool_name(s: Seq<char>) -> Option<Tools> {
    if s == tool_name(Tools::IssueValidate) {
        Some(Tools::IssueValidate)
    } else if s == tool_name(Tools::IssuePull) {
        Some(Tools::IssuePull)
    } else if s == tool_name(Tools::PullRequest) {
        Some(Tools::PullRequest)
    } else if s == tool_name(Tools::CodeRead) {
        Some(Tools::CodeRead)
    } else if s == tool_name(Tools::CodeAnalyse) {
        Some(Tools::CodeAnalyse)
    } else if s == tool_name(Tools::CodeLint) {
        Some(Tools::CodeLint)
    } else if s == tool_name(Tools::CodeWrite) {
        Some(Tools::CodeWrite)
    } else if s == tool_name(Tools::CodeTest) {
        Some(Tools::CodeTest)
    } else if s == tool_name(Tools::DocsReference) {
        Some(Tools::DocsReference)
    } else if s == tool_name(Tools::Done) {
        Some(Tools::Done)
    } else {
        None
    }
}

impl Tools {
    /// The tool's advertised name.
    pub fn as_str(&self) -> (r: &'static str)
        ensures
            r@ == tool_name(*self),
    {
        match self {
            Tools::IssueValidate => "issue_validate",
            Tools::IssuePull => "issue_pull",
            Tools::PullRequest => "pull_request",
            Tools::CodeRead => "code_read",
            Tools::CodeAnalyse => "code_analyse",
            Tools::CodeLint => "code_lint",
            Tools::CodeWrite => "code_write",
            Tools::CodeTest => "code_test",
            Tools::DocsReference => "docs_reference",
            Tools::Done => "done",
        }
    }

    /// Parses a tool name. Unknown names are a hard error: the session
    /// cannot proceed with an undeclared capability.
    pub fn from_str(s: &str) -> (r: Result<Tools, CoderError>)
        ensures
            match r {
                Ok(t) => parse_tool_name(s@) == Some(t),
                Err(e) => {
                    &&& parse_tool_name(s@) is None
                    &&& e matches CoderError::ConfigError(m) && m@ == "Invalid tool: "@ + s@
                },
            },
    {
        if str_eq(s, "issue_validate") {
            Ok(Tools::IssueValidate)
        } else if str_eq(s, "issue_pull") {
            Ok(Tools::IssuePull)
        } else if str_eq(s, "pull_request") {
            Ok(Tools::PullRequest)
        } else if str_eq(s, "code_read") {
            Ok(Tools::CodeRead)
        } else if str_eq(s, "code_analyse") {
            Ok(Tools::CodeAnalyse)
        } else if str_eq(s, "code_lint") {
            Ok(Tools::CodeLint)
        } else if str_eq(s, "code_write") {
            Ok(Tools::CodeWrite)
        } else if str_eq(s, "code_test") {
            Ok(Tools::CodeTest)
        } else if str_eq(s, "docs_reference") {
            Ok(Tools::DocsReference)
        } else if str_eq(s, "done") {
            Ok(Tools::Done)
        } else {
            Err(CoderError::ConfigError("Invalid tool: ".to_owned().concat(s)))
        }
    }
}

/// Every tool's name parses back to the same tag: the registry's
/// string representation round-trips.
pub proof fn lemma_tool_name_round_trip(t: Tools)
    ensures
        parse_tool_name(tool_name(t)) == Some(t),
{
    reveal_strlit("issue_validate");
    reveal_strlit("issue_pull");
    reveal_strlit("pull_request");
    reveal_strlit("code_read");
    reveal_strlit("code_analyse");
    reveal_strlit("code_lint");
    reveal_strlit("code_write");
    reveal_strlit("code_test");
    reveal_strlit("docs_reference");
    reveal_strlit("done");
    assert(tool_name(Tools::IssueValidate).len() == 14);
    assert(tool_name(Tools::IssuePull).len() == 10);
    assert(tool_name(Tools::PullRequest).len() == 12);
    assert(tool_name(Tools::CodeRead).len() == 9);
    assert(tool_name(Tools::CodeAnalyse).len() == 12);
    assert(tool_name(Tools::CodeLint).len() == 9);
    assert(tool_name(Tools::CodeWrite).len() == 10);
    assert(tool_name(Tools::CodeTest).len() == 9);
    assert(tool_name(Tools::DocsReference).len() == 14);
    assert(tool_name(Tools::Done).len() == 4);
    assert(tool_name(Tools::CodeRead)[5] != tool_name(Tools::CodeLint)[5]);
    assert(tool_name(Tools::CodeRead)[5] != tool_name(Tools::CodeTest)[5]);
    assert(tool_name(Tools::CodeLint)[5] != tool_name(Tools::CodeTest)[5]);
    assert(tool_name(Tools::IssuePull)[0] != tool_name(Tools::CodeWrite)[0]);
    assert(tool_name(Tools::PullRequest)[0] != tool_name(Tools::CodeAnalyse)[0]);
    assert(tool_name(Tools::IssueValidate)[0] != tool_name(Tools::DocsReference)[0]);
}

/// A successful parse returns a tag whose name is exactly the parsed
/// string; parsing accepts registry names and nothing else.
pub proof fn lemma_parse_tool_name_exact(s: Seq<char>)
    ensures
        parse_tool_name(s) matches Some(t) ==> tool_name(t) == s,
        parse_tool_name(s) is Some <==> exists|t: Tools| tool_name(t) == s,
{
    if parse_tool_name(s) is None {
        assert forall|t: Tools| tool_name(t) != s by {}
    }
}

// ---------------------------------------------------------------------------
// Tool registry
// ---------------------------------------------------------------------------

/// The JSON-schema type of a tool parameter.
#[derive(Debug, Clone, Copy, PartialEq, Eq, Structural)]
pub enum ParamKind {
    Text,
    Number,
}

/// One parameter of a tool's argument schema.
pub struct ToolParameter {
    pub name: &'static str,
    pub kind: ParamKind,
    pub description: &'static str,
    pub required: bool,
}

/// One entry of the tool registry: a tool, its natural-language
/// description, and its declared argument schema.
pub struct ToolDescriptor {
    pub tool: Tools,
    pub description: &'static str,
    pub parameters: Vec<ToolParameter>,
}

/// The parameter has the given name, type and description, and is required.
pub open spec fn param_is(p: ToolParameter, name: Seq<char>, kind: ParamKind, desc: Seq<char>) -> bool {
    p.name@ == name && p.kind == kind && p.description@ == desc && p.required
}

/// A required parameter of the registry.
fn param(name: &'static str, kind: ParamKind, description: &'static str) -> (p: ToolParameter)
    ensures
        param_is(p, name@, kind, description@),
{
    ToolParameter { name, kind, description, required: true }
}

/// The static tool registry, built once at startup: the fixed catalog of
/// capabilities advertised to the model, each with its argument schema.
pub fn get_tools() -> (r: Vec<ToolDescriptor>)
    ensures
        r@.len() == 10,
        r@[0].tool == Tools::IssueValidate && r@[0].description@ == "Validate the issue"@,
        r@[0].parameters@.len() == 2,
        param_is(r@[0].parameters@[0], "scm"@, ParamKind::Text, "SCM name lowercase"@),
        param_is(r@[0].parameters@[1], "issue"@, ParamKind::Number, "Issue number"@),
        r@[1].tool == Tools::IssuePull && r@[1].description@ == "Pull the issue from SCM"@,
        r@[1].parameters@.len() == 2,
        param_is(r@[1].parameters@[0], "scm"@, ParamKind::Text, "SCM name lowercase"@),
        param_is(r@[1].parameters@[1], "issue"@, ParamKind::Number, "Issue number"@),
        r@[2].tool == Tools::CodeLint && r@[2].description@ == "Lint the code"@,
        r@[2].parameters@.len() == 0,
        r@[3].tool == Tools::CodeAnalyse && r@[3].description@ == "Analyse the code"@,
        r@[3].parameters@.len() == 0,
        r@[4].tool == Tools::CodeTest && r@[4].description@ == "Test the code"@,
        r@[4].parameters@.len() == 0,
        r@[5].tool == Tools::DocsReference && r@[5].description@ == "Reference the docs"@,
        r@[5].parameters@.len() == 1,
        param_is(r@[5].parameters@[0], "term"@, ParamKind::Text, "The term to search for"@),
        r@[6].tool == Tools::CodeRead && r@[6].description@ == "Read a code content"@,
        r@[6].parameters@.len() == 1,
        param_is(r@[6].parameters@[0], "path"@, ParamKind::Text, "The path to the file"@),
        r@[7].tool == Tools::CodeWrite && r@[7].description@ == "Write code to a file"@,
        r@[7].parameters@.len() == 2,
        param_is(r@[7].parameters@[0], "path"@, ParamKind::Text, "The path to the file"@),
        param_is(r@[7].parameters@[1], "content"@, ParamKind::Text, "The content to write"@),
        r@[8].tool == Tools::PullRequest && r@[8].description@ == "Create a Pull Request"@,
        r@[8].parameters@.len() == 4,
        param_is(r@[8].parameters@[0], "branch_name"@, ParamKind::Text, "The branch name"@),
        param_is(r@[8].parameters@[1], "issue"@, ParamKind::Number, "The issue number"@),
        param_is(r@[8].parameters@[2], "title"@, ParamKind::Text, "The pull request title"@),
        param_is(r@[8].parameters@[3], "body"@, ParamKind::Text, "The pull request body"@),
        r@[9].tool == Tools::Done && r@[9].description@ == "Finish the task"@,
        r@[9].parameters@.len() == 0,
{
    let mut tools: Vec<ToolDescriptor> = Vec::new();

    let mut issue_params: Vec<ToolParameter> = Vec::new();
    issue_params.push(param("scm", ParamKind::Text, "SCM name lowercase"));
    issue_params.push(param("issue", ParamKind::Number, "Issue number"));
    tools.push(
        ToolDescriptor {
            tool: Tools::IssueValidate,
            description: "Validate the issue",
            parameters: issue_params,
        },
    );

    let mut pull_params: Vec<ToolParameter> = Vec::new();
    pull_params.push(param("scm", ParamKind::Text, "SCM name lowercase"));
    pull_params.push(param("issue", ParamKind::Number, "Issue number"));
    tools.push(
        ToolDescriptor {
            tool: Tools::IssuePull,
            description: "Pull the issue from SCM",
            parameters: pull_params,
        },
    );

    tools.push(
        ToolDescriptor {
            tool: Tools::CodeLint,
            description: "Lint the code",
            parameters: Vec::new(),
        },
    );

    tools.push(
        ToolDescriptor {
            tool: Tools::CodeAnalyse,
            description: "Analyse the code",
            parameters: Vec::new(),
        },
    );

    tools.push(
        ToolDescriptor {
            tool: Tools::CodeTest,
            description: "Test the code",
            parameters: Vec::new(),
        },
    );

    let mut docs_params: Vec<ToolParameter> = Vec::new();
    docs_params.push(param("term", ParamKind::Text, "The term to search for"));
    tools.push(
        ToolDescriptor {
            tool: Tools::DocsReference,
            description: "Reference the docs",
            parameters: docs_params,
        },
    );

    let mut read_params: Vec<ToolParameter> = Vec::new();
    read_params.push(param("path", ParamKind::Text, "The path to the file"));
    tools.push(
        ToolDescriptor {
            tool: Tools::CodeRead,
            description: "Read a code content",
            parameters: read_params,
        },
    );

    let mut write_params: Vec<ToolParameter> = Vec::new();
    write_params.push(param("path", ParamKind::Text, "The path to the file"));
    write_params.push(param("content", ParamKind::Text, "The content to write"));
    tools.push(
        ToolDescriptor {
            tool: Tools::CodeWrite,
            description: "Write code to a file",
            parameters: write_params,
        },
    );

    let mut pr_params: Vec<ToolParameter> = Vec::new();
    pr_params.push(param("branch_name", ParamKind::Text, "The branch name"));
    pr_params.push(param("issue", ParamKind::Number, "The issue number"));
    pr_params.push(param("title", ParamKind::Text, "The pull request title"));
    pr_params.push(param("body", ParamKind::Text, "The pull request body"));
    tools.push(
        ToolDescriptor {
            tool: Tools::PullRequest,
            description: "Create a Pull Request",
            parameters: pr_params,
        },
    );

    tools.push(
        ToolDescriptor { tool: Tools::Done, description: "Finish the task", parameters: Vec::new() },
    );

    tools
}

// ---------------------------------------------------------------------------
// Tool arguments
// ---------------------------------------------------------------------------

/// Arguments of the documentation-reference tool.
pub struct DocsReferenceArgs {
    pub term: String,
}

/// Arguments of the issue tools.
pub struct IssuePullArgs {
    pub issue: u64,
    pub scm: String,
}

/// Arguments of the file-read tool.
pub struct CodeReadArgs {
    pub path: String,
}

/// Arguments of the file-write tool.
pub struct CodeWriteArgs {
    pub path: String,
    pub content: String,
}

/// Arguments of the pull-request tool.
pub struct PullRequestArgs {
    pub branch_name: String,
    pub issue: u64,
    pub title: String,
    pub body: String,
}

/// An issue sanitized for the conversation: only the number, title and body
/// survive, so unrelated service fields never reach the model context.
pub struct Issue {
    pub number: u64,
    pub title: String,
    pub body: Option<String>,
}

/// A pull request sanitized for the conversation.
pub struct PullRequestInfo {
    pub number: u64,
    pub title: Option<String>,
    pub body: Option<String>,
}

// ---------------------------------------------------------------------------
// Result envelope
// ---------------------------------------------------------------------------

/// The uniform envelope through which every tool execution reports back.
/// `result`, when present, holds pre-rendered JSON.
pub struct StatusResponse {
    pub status: String,
    pub message: Option<String>,
    pub result: Option<String>,
    pub retry: bool,
}

/// The wire form of a result envelope.
pub open spec fn envelope_json(
    status: Seq<char>,
    message: Option<Seq<char>>,
    result: Option<Seq<char>>,
    retry: bool,
) -> Seq<char> {
    "{\"status\":"@ + json_string_of(status) + ",\"message\":"@ + (match message {
        Some(m) => json_string_of(m),
        None => "null"@,
    }) + ",\"result\":"@ + (match result {
        Some(r) => r,
        None => "null"@,
    }) + ",\"retry\":"@ + (if retry {
        "true"@
    } else {
        "false"@
    }) + "}"@
}

impl StatusResponse {
    /// The view of the optional message.
    pub open spec fn message_view(&self) -> Option<Seq<char>> {
        match &self.message {
            Some(m) => Some(m@),
            None => None,
        }
    }

    /// The view of the optional result.
    pub open spec fn result_view(&self) -> Option<Seq<char>> {
        match &self.result {
            Some(r) => Some(r@),
            None => None,
        }
    }

    /// The wire form of this envelope.
    pub open spec fn json_of(&self) -> Seq<char> {
        envelope_json(self.status@, self.message_view(), self.result_view(), self.retry)
    }

    /// Renders the envelope in its wire form.
    pub fn to_json(&self) -> (r: String)
        ensures
            r@ == self.json_of(),
    {
        let mut out = "{\"status\":".to_owned();
        out.append(json_string(self.status.as_str()).as_str());
        out.append(",\"message\":");
        match &self.message {
            Some(m) => out.append(json_string(m.as_str()).as_str()),
            None => out.append("null"),
        }
        out.append(",\"result\":");
        match &self.result {
            Some(r) => out.append(r.as_str()),
            None => out.append("null"),
        }
        out.append(",\"retry\":");
        if self.retry {
            out.append("true");
        } else {
            out.append("false");
        }
        out.append("}");
        assert(out@ =~= self.json_of());
        out
    }
}

/// The completion sentinel: an envelope carrying this message ends the
/// session.
pub open spec fn completion_sentinel() -> Seq<char> {
    "Task completed"@
}

// ---------------------------------------------------------------------------
// Simple tools
// ---------------------------------------------------------------------------

/// Done with the task. The terminal tool has no side effects.
pub fn done() -> (r: Result<(), CoderError>)
    ensures
        r is Ok,
{
    Ok(())
}

/// The envelope of a completed session; its message is the completion
/// sentinel.
pub fn done_envelope() -> (r: StatusResponse)
    ensures
        r.status@ == "ok"@,
        r.message_view() == Some(completion_sentinel()),
        r.result_view() is None,
        !r.retry,
{
    StatusResponse {
        status: "ok".to_owned(),
        message: Some("Task completed".to_owned()),
        result: None,
        retry: false,
    }
}

/// Get documentation references. An acknowledged integration point that is
/// not implemented yet: it succeeds without doing anything.
pub fn docs_reference(term: &str) -> (r: Result<(), CoderError>)
    ensures
        r is Ok,
{
    let _ = term;
    Ok(())
}

/// The envelope of a documentation-reference acknowledgment.
pub fn docs_reference_envelope() -> (r: StatusResponse)
    ensures
        r.status@ == "ok"@,
        r.message_view() is None,
        r.result_view() is None,
        !r.retry,
{
    StatusResponse { status: "ok".to_owned(), message: None, result: None, retry: false }
}

/// The envelope of a file write. A write whose version-control diff shows no
/// change did not have the intended effect, so the envelope asks for a
/// retry; a write that changed the file does not.
pub fn code_write_envelope(changed: bool) -> (r: StatusResponse)
    ensures
        r.status@ == "ok"@,
        r.message_view() == Some("Code written"@),
        r.result_view() is None,
        r.retry == !changed,
{
    StatusResponse {
        status: "ok".to_owned(),
        message: Some("Code written".to_owned()),
        result: None,
        retry: !changed,
    }
}

/// The envelope of a successful file read, carrying the content.
pub fn code_read_envelope(content: &str) -> (r: StatusResponse)
    ensures
        r.status@ == "ok"@,
        r.message_view() == Some("Code read"@),
        r.result_view() == Some(json_string_of(content@)),
        !r.retry,
{
    StatusResponse {
        status: "ok".to_owned(),
        message: Some("Code read".to_owned()),
        result: Some(json_string(content)),
        retry: false,
    }
}

/// The commit message that ties the fix to its issue.
pub fn commit_message(issue: u64) -> (r: String)
    ensures
        r@ == "fix: address issue #"@ + dec_rep(issue as int),
{
    let mut out = "fix: address issue #".to_owned();
    out.append(crate::text::u64_to_string(issue).as_str());
    out
}

/// The JSON object of a sanitized issue.
pub open spec fn issue_json(issue: Issue) -> Seq<char> {
    "{\"number\":"@ + dec_rep(issue.number as int) + ",\"title\":"@ + json_string_of(issue.title@)
        + ",\"body\":"@ + (match issue.body {
        Some(b) => json_string_of(b@),
        None => "null"@,
    }) + "}"@
}

/// The envelope of a pulled or validated issue, carrying the sanitized
/// issue.
pub fn issue_envelope(issue: &Issue, validated: bool) -> (r: StatusResponse)
    ensures
        r.status@ == "ok"@,
        r.message_view() == Some(
            if validated {
                "Issue validated"@
            } else {
                "Issue pulled"@
            },
        ),
        r.result_view() == Some(issue_json(*issue)),
        !r.retry,
{
    let mut payload = "{\"number\":".to_owned();
    payload.append(crate::text::u64_to_string(issue.number).as_str());
    payload.append(",\"title\":");
    payload.append(json_string(issue.title.as_str()).as_str());
    payload.append(",\"body\":");
    match &issue.body {
        Some(b) => payload.append(json_string(b.as_str()).as_str()),
        None => payload.append("null"),
    }
    payload.append("}");
    assert(payload@ =~= issue_json(*issue));
    let message = if validated {
        "Issue validated".to_owned()
    } else {
        "Issue pulled".to_owned()
    };
    StatusResponse {
        status: "ok".to_owned(),
        message: Some(message),
        result: Some(payload),
        retry: false,
    }
}

/// The JSON object of a sanitized pull request.
pub open spec fn pull_request_json(pr: PullRequestInfo) -> Seq<char> {
    "{\"number\":"@ + dec_rep(pr.number as int) + ",\"title\":"@ + (match pr.title {
        Some(t) => json_string_of(t@),
        None => "null"@,
    }) + ",\"body\":"@ + (match pr.body {
        Some(b) => json_string_of(b@),
        None => "null"@,
    }) + "}"@
}

/// The envelope of a created pull request, carrying the sanitized request.
pub fn pull_request_envelope(pr: &PullRequestInfo) -> (r: StatusResponse)
    ensures
        r.status@ == "ok"@,
        r.message_view() == Some("Pull request created"@),
        r.result_view() == Some(pull_request_json(*pr)),
        !r.retry,
{
    let mut payload = "{\"number\":".to_owned();
    payload.append(crate::text::u64_to_string(pr.number).as_str());
    payload.append(",\"title\":");
    match &pr.title {
        Some(t) => payload.append(json_string(t.as_str()).as_str()),
        None => payload.append("null"),
    }
    payload.append(",\"body\":");
    match &pr.body {
        Some(b) => payload.append(json_string(b.as_str()).as_str()),
        None => payload.append("null"),
    }
    payload.append("}");
    assert(payload@ =~= pull_request_json(*pr));
    StatusResponse {
        status: "ok".to_owned(),
        message: Some("Pull request created".to_owned()),
        result: Some(payload),
        retry: false,
    }
}

// ---------------------------------------------------------------------------
// Language-specific commands
// ---------------------------------------------------------------------------

/// The kinds of language-specific commands a session can run.
#[derive(Debug, Clone, Copy, PartialEq, Eq, Structural)]
pub enum CommandType {
    Analyse,
    Lint,
    Test,
}

/// The display name of a command kind.
pub open spec fn command_type_name(t: CommandType) -> Seq<char> {
    match t {
        CommandType::Lint => "lint"@,
        CommandType::Analyse => "analyse"@,
        CommandType::Test => "test"@,
    }
}

impl CommandType {
    /// The display name of this command kind.
    pub fn name(&self) -> (r: &'static str)
        ensures
            r@ == command_type_name(*self),
    {
        match self {
            CommandType::Lint => "lint",
            CommandType::Analyse => "analyse",
            CommandType::Test => "test",
        }
    }
}

/// The command string configured for a command kind. An empty string means
/// the kind is not configured.
pub open spec fn configured_command(config: LanguageConfig, t: CommandType) -> Seq<char> {
    match t {
        CommandType::Lint => config.linter@,
        CommandType::Analyse => config.analyse@,
        CommandType::Test => config.test_command@,
    }
}

/// A command ready to run: the configured string, its program, and the
/// remaining words as arguments.
pub struct CommandPlan {
    pub command: String,
    pub program: String,
    pub args: Vec<String>,
}

/// Looks up and splits the configured command for a command kind. An
/// unconfigured kind and a command with no words are each refused.
pub fn prepare_command(config: &LanguageConfig, command_type: &CommandType) -> (r: Result<
    CommandPlan,
    CoderError,
>)
    ensures
        ({
            let cmd = configured_command(*config, *command_type);
            match r {
                Ok(plan) => {
                    &&& cmd.len() > 0
                    &&& split_ws(cmd).len() > 0
                    &&& plan.command@ == cmd
                    &&& plan.program@ == split_ws(cmd)[0]
                    &&& plan.args@.len() == split_ws(cmd).len() - 1
                    &&& forall|i: int|
                        0 <= i < plan.args@.len() ==> #[trigger] plan.args@[i]@ == split_ws(cmd)[i
                            + 1]
                },
                Err(e) => {
                    ||| {
                        &&& cmd.len() == 0
                        &&& e matches CoderError::ConfigError(m) && m@ == "No "@ + command_type_name(
                            *command_type,
                        ) + " command configured for language "@ + config.name@
                    }
                    ||| {
                        &&& cmd.len() > 0
                        &&& split_ws(cmd).len() == 0
                        &&& e matches CoderError::ConfigError(m) && m@ == "Empty command"@
                    }
                },
            }
        }),
{
    let command: &String = match command_type {
        CommandType::Lint => &config.linter,
        CommandType::Analyse => &config.analyse,
        CommandType::Test => &config.test_command,
    };
    if command.as_str().is_empty() {
        let mut msg = "No ".to_owned();
        msg.append(command_type.name());
        msg.append(" command configured for language ");
        msg.append(config.name.as_str());
        return Err(CoderError::ConfigError(msg));
    }
    let words = crate::text::split_whitespace(command.as_str());
    if words.len() == 0 {
        return Err(CoderError::ConfigError("Empty command".to_owned()));
    }
    let program = words[0].clone();
    let mut args: Vec<String> = Vec::new();
    let n = words.len();
    let mut i: usize = 1;
    while i < n
        invariant
            1 <= i <= n == words@.len(),
            args@.len() == i - 1,
            forall|j: int| 0 <= j < args@.len() ==> #[trigger] args@[j] == words@[j + 1],
        decreases n - i,
    {
        let w = words[i].clone();
        args.push(w);
        i = i + 1;
    }
    Ok(CommandPlan { command: command.clone(), program, args })
}

/// The envelope of a command that exited successfully, carrying its
/// standard output.
pub fn command_envelope(command: &str, stdout: &str) -> (r: StatusResponse)
    ensures
        r.status@ == "ok"@,
        r.message_view() == Some("Command '"@ + command@ + "' succeeded"@),
        r.result_view() == Some(json_string_of(stdout@)),
        !r.retry,
{
    let mut msg = "Command '".to_owned();
    msg.append(command);
    msg.append("' succeeded");
    StatusResponse {
        status: "ok".to_owned(),
        message: Some(msg),
        result: Some(json_string(stdout)),
        retry: false,
    }
}

/// The error of a command that exited with a nonzero status, carrying its
/// captured standard error.
pub fn command_failure(command: &str, stderr: &str) -> (r: CoderError)
    ensures
        r matches CoderError::CommandError(m) && m@ == "Command '"@ + command@ + "' failed: "@
            + stderr@,
{
    let mut msg = "Command '".to_owned();
    msg.append(command);
    msg.append("' failed: ");
    msg.append(stderr);
    CoderError::CommandError(msg)
}

// ---------------------------------------------------------------------------
// Workspace snapshot
// ---------------------------------------------------------------------------

/// The cached mapping from workspace file paths to their text, served to
/// file reads instead of the live filesystem.
pub struct Snapshot {
    pub files: Vec<(String, String)>,
}

/// The content stored under a path: the first entry with that key.
pub open spec fn snapshot_lookup(files: Seq<(String, String)>, path: Seq<char>) -> Option<
    Seq<char>,
>
    decreases files.len(),
{
    if files.len() == 0 {
        None
    } else if files[0].0@ == path {
        Some(files[0].1@)
    } else {
        snapshot_lookup(files.drop_first(), path)
    }
}

/// A list in which no entry holds the key has no content for it.
proof fn lemma_lookup_none(files: Seq<(String, String)>, k: Seq<char>)
    requires
        forall|j: int| 0 <= j < files.len() ==> files[j].0@ != k,
    ensures
        snapshot_lookup(files, k) is None,
    decreases files.len(),
{
    if files.len() > 0 {
        lemma_lookup_none(files.drop_first(), k);
    }
}

/// Replacing the first entry that holds a key moves the lookup of that key
/// to the new value and leaves every other key's lookup unchanged.
proof fn lemma_lookup_update(
    files: Seq<(String, String)>,
    i: int,
    entry: (String, String),
    k: Seq<char>,
)
    requires
        0 <= i < files.len(),
        entry.0@ == files[i].0@,
        forall|j: int| 0 <= j < i ==> files[j].0@ != files[i].0@,
    ensures
        files[i].0@ == k ==> snapshot_lookup(files.update(i, entry), k) == Some(entry.1@),
        files[i].0@ != k ==> snapshot_lookup(files.update(i, entry), k) == snapshot_lookup(
            files,
            k,
        ),
    decreases i,
{
    let u = files.update(i, entry);
    if i == 0 {
        assert(u.drop_first() =~= files.drop_first());
    } else {
        assert(u[0] == files[0]);
        assert(files[0].0@ != files[i].0@);
        assert(u.drop_first() =~= files.drop_first().update(i - 1, entry));
        lemma_lookup_update(files.drop_first(), i - 1, entry, k);
    }
}

/// Appending an entry serves its key only where the list had no content
/// for it, and leaves every other key's lookup unchanged.
proof fn lemma_lookup_push(files: Seq<(String, String)>, entry: (String, String), k: Seq<char>)
    ensures
        snapshot_lookup(files.push(entry), k) == (if snapshot_lookup(files, k) is Some {
            snapshot_lookup(files, k)
        } else if entry.0@ == k {
            Some(entry.1@)
        } else {
            None::<Seq<char>>
        }),
    decreases files.len(),
{
    let p = files.push(entry);
    if files.len() == 0 {
        assert(p[0] == entry);
        assert(p.drop_first() =~= files);
    } else {
        assert(p[0] == files[0]);
        assert(p.drop_first() =~= files.drop_first().push(entry));
        lemma_lookup_push(files.drop_first(), entry, k);
    }
}

impl Snapshot {
    /// Records a written file, keeping the cached mapping in sync with the
    /// live filesystem: the path now serves the new content and every
    /// other path serves what it served before.
    pub fn store(&mut self, path: &str, content: &str)
        ensures
            snapshot_lookup(final(self).files@, path@) == Some(content@),
            forall|k: Seq<char>|
                k != path@ ==> snapshot_lookup(final(self).files@, k) == snapshot_lookup(
                    old(self).files@,
                    k,
                ),
    {
        let n = self.files.len();
        let mut i: usize = 0;
        while i < n
            invariant
                i <= n == self.files@.len(),
                self.files@ == old(self).files@,
                forall|j: int| 0 <= j < i ==> self.files@[j].0@ != path@,
            decreases n - i,
        {
            if str_eq(self.files[i].0.as_str(), path) {
                let new_entry = (path.to_owned(), content.to_owned());
                let ghost entry_spec = new_entry;
                self.files.set(i, new_entry);
                proof {
                    assert(snapshot_lookup(self.files@, path@) == Some(content@)) by {
                        lemma_lookup_update(old(self).files@, i as int, entry_spec, path@);
                    }
                    assert forall|k: Seq<char>| k != path@ implies snapshot_lookup(self.files@, k)
                        == snapshot_lookup(old(self).files@, k) by {
                        lemma_lookup_update(old(self).files@, i as int, entry_spec, k);
                    }
                }
                return ;
            }
            i = i + 1;
        }
        let new_entry = (path.to_owned(), content.to_owned());
        let ghost entry_spec = new_entry;
        self.files.push(new_entry);
        proof {
            lemma_lookup_none(old(self).files@, path@);
            assert(snapshot_lookup(self.files@, path@) == Some(content@)) by {
                lemma_lookup_push(old(self).files@, entry_spec, path@);
            }
            assert forall|k: Seq<char>| k != path@ implies snapshot_lookup(self.files@, k)
                == snapshot_lookup(old(self).files@, k) by {
                lemma_lookup_push(old(self).files@, entry_spec, k);
            }
        }
    }
}

/// Hands out the first entry stored under a key, if any.
pub fn assoc_get<'a>(entries: &'a Vec<(String, String)>, key: &str) -> (r: Option<&'a String>)
    ensures
        match r {
            Some(c) => snapshot_lookup(entries@, key@) == Some(c@),
            None => snapshot_lookup(entries@, key@) is None,
        },
{
    let n = entries.len();
    let mut i: usize = 0;
    proof {
        assert(entries@.skip(0) =~= entries@);
    }
    while i < n
        invariant
            i <= n == entries@.len(),
            snapshot_lookup(entries@, key@) == snapshot_lookup(entries@.skip(i as int), key@),
        decreases n - i,
    {
        proof {
            assert(entries@.skip(i as int).drop_first() =~= entries@.skip(i + 1));
        }
        if str_eq(entries[i].0.as_str(), key) {
            return Some(&entries[i].1);
        }
        i = i + 1;
    }
    None
}

/// Reads a file's cached content from the workspace snapshot by exact path
/// key. A missing snapshot and a path with no entry are distinct errors,
/// the latter naming the path.
pub fn code_read(snapshot: Option<&Snapshot>, path: &str) -> (r: Result<String, CoderError>)
    ensures
        match snapshot {
            None => r matches Err(e) && e matches CoderError::ConfigError(m) && m@
                == "Index file not found"@,
            Some(s) => match r {
                Ok(content) => snapshot_lookup(s.files@, path@) == Some(content@),
                Err(e) => {
                    &&& snapshot_lookup(s.files@, path@) is None
                    &&& e matches CoderError::ConfigError(m) && m@
                        == "Content not found for path: "@ + path@
                },
            },
        },
{
    let snapshot = match snapshot {
        None => {
            return Err(CoderError::ConfigError("Index file not found".to_owned()));
        },
        Some(s) => s,
    };
    match assoc_get(&snapshot.files, path) {
        Some(content) => Ok(content.clone()),
        None => {
            let mut msg = "Content not found for path: ".to_owned();
            msg.append(path);
            Err(CoderError::ConfigError(msg))
        },
    }
}

// ---------------------------------------------------------------------------
// Dispatch
// ---------------------------------------------------------------------------

/// The parsed arguments of one tool call, deserialized outside the library
/// against the tool's declared schema.
pub enum ToolArgs {
    Docs(DocsReferenceArgs),
    Issue(IssuePullArgs),
    Read(CodeReadArgs),
    Write(CodeWriteArgs),
    Pr(PullRequestArgs),
}

/// The side-effecting operation one tool call asks for, handed to the
/// driver to perform.
pub enum ToolAction {
    /// Serve the file from the workspace snapshot.
    ReadFile { path: String },
    /// Write the file and diff it afterwards.
    WriteFile { path: String, content: String },
    /// Run the prepared language-specific command.
    RunCommand { plan: CommandPlan },
    /// Fetch the issue, and validate it first when asked to.
    FetchIssue { issue: u64, validate: bool },
    /// Create the pull request for the staged changes.
    CreatePullRequest { branch_name: String, issue: u64, title: String, body: String, commit: String },
    /// Acknowledge the documentation lookup.
    AcknowledgeDocs { term: String },
    /// End the session.
    Finish,
}

/// Maps one parsed tool invocation to the operation to perform. A tool
/// whose arguments are absent or of the wrong shape is a recoverable
/// missing-arguments condition; the command tools consult the language
/// profile. The match is exhaustive over the closed tool set.
pub fn plan_tool_call(
    tool: &Tools,
    args: Option<ToolArgs>,
    config: &crate::config::Config,
) -> (r: Result<ToolAction, CoderError>)
    ensures
        match *tool {
            Tools::CodeRead => match args {
                Some(ToolArgs::Read(a)) => r matches Ok(ToolAction::ReadFile { path }) && path
                    == a.path,
                _ => r matches Err(CoderError::MissingArguments(m)) && m@
                    == "CodeRead requires arguments"@,
            },
            Tools::CodeWrite => match args {
                Some(ToolArgs::Write(a)) => r matches Ok(ToolAction::WriteFile { path, content })
                    && path == a.path && content == a.content,
                _ => r matches Err(CoderError::MissingArguments(m)) && m@
                    == "CodeWrite requires arguments"@,
            },
            Tools::IssueValidate => match args {
                Some(ToolArgs::Issue(a)) => r matches Ok(ToolAction::FetchIssue { issue, validate })
                    && issue == a.issue && validate,
                _ => r matches Err(CoderError::MissingArguments(m)) && m@
                    == "IssueValidate requires arguments"@,
            },
            Tools::IssuePull => match args {
                Some(ToolArgs::Issue(a)) => r matches Ok(ToolAction::FetchIssue { issue, validate })
                    && issue == a.issue && !validate,
                _ => r matches Err(CoderError::MissingArguments(m)) && m@
                    == "IssuePull requires arguments"@,
            },
            Tools::PullRequest => match args {
                Some(ToolArgs::Pr(a)) => r matches Ok(ToolAction::CreatePullRequest {
                    branch_name,
                    issue,
                    title,
                    body,
                    commit,
                }) && branch_name == a.branch_name && issue == a.issue && title == a.title && body
                    == a.body && commit@ == "fix: address issue #"@ + dec_rep(a.issue as int),
                _ => r matches Err(CoderError::MissingArguments(m)) && m@
                    == "PullRequest requires arguments"@,
            },
            Tools::DocsReference => match args {
                Some(ToolArgs::Docs(a)) => r matches Ok(ToolAction::AcknowledgeDocs { term })
                    && term == a.term,
                _ => r matches Err(CoderError::MissingArguments(m)) && m@
                    == "DocsReference requires arguments"@,
            },
            Tools::CodeLint | Tools::CodeAnalyse | Tools::CodeTest => {
                let ct = match *tool {
                    Tools::CodeLint => CommandType::Lint,
                    Tools::CodeAnalyse => CommandType::Analyse,
                    _ => CommandType::Test,
                };
                let cmd = configured_command(config.language, ct);
                match r {
                    Ok(ToolAction::RunCommand { plan }) => {
                        &&& cmd.len() > 0
                        &&& split_ws(cmd).len() > 0
                        &&& plan.command@ == cmd
                        &&& plan.program@ == split_ws(cmd)[0]
                        &&& plan.args@.len() == split_ws(cmd).len() - 1
                        &&& forall|i: int|
                            0 <= i < plan.args@.len() ==> #[trigger] plan.args@[i]@ == split_ws(
                                cmd,
                            )[i + 1]
                    },
                    Ok(_) => false,
                    Err(e) => {
                        ||| {
                            &&& cmd.len() == 0
                            &&& e matches CoderError::ConfigError(m) && m@ == "No "@
                                + command_type_name(ct) + " command configured for language "@
                                + config.language.name@
                        }
                        ||| {
                            &&& cmd.len() > 0
                            &&& split_ws(cmd).len() == 0
                            &&& e matches CoderError::ConfigError(m) && m@ == "Empty command"@
                        }
                    },
                }
            },
            Tools::Done => r matches Ok(a) && a is Finish,
        },
{
    match tool {
        Tools::CodeRead => match args {
            Some(ToolArgs::Read(a)) => Ok(ToolAction::ReadFile { path: a.path }),
            _ => Err(CoderError::MissingArguments("CodeRead requires arguments".to_owned())),
        },
        Tools::CodeWrite => match args {
            Some(ToolArgs::Write(a)) => Ok(
                ToolAction::WriteFile { path: a.path, content: a.content },
            ),
            _ => Err(CoderError::MissingArguments("CodeWrite requires arguments".to_owned())),
        },
        Tools::IssueValidate => match args {
            Some(ToolArgs::Issue(a)) => Ok(ToolAction::FetchIssue { issue: a.issue, validate: true }),
            _ => Err(CoderError::MissingArguments("IssueValidate requires arguments".to_owned())),
        },
        Tools::IssuePull => match args {
            Some(ToolArgs::Issue(a)) => Ok(
                ToolAction::FetchIssue { issue: a.issue, validate: false },
            ),
            _ => Err(CoderError::MissingArguments("IssuePull requires arguments".to_owned())),
        },
        Tools::PullRequest => match args {
            Some(ToolArgs::Pr(a)) => {
                let commit = commit_message(a.issue);
                Ok(
                    ToolAction::CreatePullRequest {
                        branch_name: a.branch_name,
                        issue: a.issue,
                        title: a.title,
                        body: a.body,
                        commit,
                    },
                )
            },
            _ => Err(CoderError::MissingArguments("PullRequest requires arguments".to_owned())),
        },
        Tools::DocsReference => match args {
            Some(ToolArgs::Docs(a)) => Ok(ToolAction::AcknowledgeDocs { term: a.term }),
            _ => Err(CoderError::MissingArguments("DocsReference requires arguments".to_owned())),
        },
        Tools::CodeLint => match prepare_command(&config.language, &CommandType::Lint) {
            Ok(plan) => Ok(ToolAction::RunCommand { plan }),
            Err(e) => Err(e),
        },
        Tools::CodeAnalyse => match prepare_command(&config.language, &CommandType::Analyse) {
            Ok(plan) => Ok(ToolAction::RunCommand { plan }),
            Err(e) => Err(e),
        },
        Tools::CodeTest => match prepare_command(&config.language, &CommandType::Test) {
            Ok(plan) => Ok(ToolAction::RunCommand { plan }),
            Err(e) => Err(e),
        },
        Tools::Done => Ok(ToolAction::Finish),
    }
}

// ---------------------------------------------------------------------------
// Pull-request planning
// ---------------------------------------------------------------------------

/// One local version-control operation of the pull-request workflow.
pub enum VcsStep {
    /// Create and switch to the feature branch.
    CreateBranch(String),
    /// Stage all pending changes.
    StageAll,
    /// Commit the staged changes with the given message.
    Commit(String),
    /// Push the branch to the remote.
    Push(String),
    /// Switch back to the base branch.
    CheckoutBase,
    /// Delete the local feature branch.
    DeleteBranch(String),
}

/// The ordered local version-control steps that precede opening a pull
/// request: branch, stage, commit with a message naming the issue, push.
pub fn pull_request_preparation(branch_name: &str, issue: u64) -> (r: Vec<VcsStep>)
    ensures
        r@.len() == 4,
        r@[0] matches VcsStep::CreateBranch(b) && b@ == branch_name@,
        r@[1] is StageAll,
        r@[2] matches VcsStep::Commit(m) && m@ == "fix: address issue #"@ + dec_rep(issue as int),
        r@[3] matches VcsStep::Push(b) && b@ == branch_name@,
{
    let mut steps: Vec<VcsStep> = Vec::new();
    steps.push(VcsStep::CreateBranch(branch_name.to_owned()));
    steps.push(VcsStep::StageAll);
    steps.push(VcsStep::Commit(commit_message(issue)));
    steps.push(VcsStep::Push(branch_name.to_owned()));
    steps
}

/// The ordered best-effort cleanup steps after the pull request was
/// opened: back to the base branch, then drop the local feature branch.
pub fn pull_request_cleanup(branch_name: &str) -> (r: Vec<VcsStep>)
    ensures
        r@.len() == 2,
        r@[0] is CheckoutBase,
        r@[1] matches VcsStep::DeleteBranch(b) && b@ == branch_name@,
{
    let mut steps: Vec<VcsStep> = Vec::new();
    steps.push(VcsStep::CheckoutBase);
    steps.push(VcsStep::DeleteBranch(branch_name.to_owned()));
    steps
}

// ---------------------------------------------------------------------------
// Issue validation
// ---------------------------------------------------------------------------

/// The heading under which a template section must appear in an issue body.
pub open spec fn section_marker(name: Seq<char>) -> Seq<char> {
    "## "@ + name
}

/// Checks the template sections against an issue body. `t` is the rest of
/// the template just after a section delimiter, so the current section runs
/// to the next delimiter or the end. The first violated rule is reported:
/// an empty section is invalid, and a section whose trimmed first line does
/// not appear as a heading in the body is missing.
pub open spec fn check_sections_from(t: Seq<char>, body: Seq<char>) -> Option<Seq<char>>
    decreases t.len(),
{
    // A found delimiter lies within the rest of the template; the bound
    // guards make that evident to the termination check.
    let k = crate::text::find_index(t, "##"@);
    let section = if k < 0 || k > t.len() {
        t
    } else {
        t.take(k)
    };
    if section.len() == 0 {
        Some("Invalid template section"@)
    } else {
        let name = crate::text::trimmed(crate::text::first_line(section));
        if !crate::text::contains_seq(body, section_marker(name)) {
            Some("Missing required section: "@ + name)
        } else if k < 0 || k + 2 > t.len() {
            None
        } else {
            check_sections_from(t.skip(k + 2), body)
        }
    }
}

/// The first rule an issue violates, if any: the number must be nonzero,
/// the title must not be blank, and when a template is configured the body
/// must be present and contain every template section heading.
pub open spec fn issue_validation_error(
    template: Option<Seq<char>>,
    issue_number: u64,
    title: Seq<char>,
    body: Option<Seq<char>>,
) -> Option<Seq<char>> {
    if issue_number == 0 {
        Some("Issue number cannot be 0"@)
    } else if crate::text::trimmed(title).len() == 0 {
        Some("Issue title cannot be empty"@)
    } else {
        match template {
            None => None,
            Some(t) => match body {
                None => Some("Issue body is required when template is configured"@),
                Some(b) => {
                    let k0 = crate::text::find_index(t, "##"@);
                    if k0 < 0 || k0 + 2 > t.len() {
                        None
                    } else {
                        check_sections_from(t.skip(k0 + 2), b)
                    }
                },
            },
        }
    }
}

/// The view of the configured issue template.
pub open spec fn template_view(config: crate::config::Config) -> Option<Seq<char>> {
    match config.scm.issue_template {
        Some(t) => Some(t@),
        None => None,
    }
}

/// The view of an optional text.
pub open spec fn opt_view(s: Option<String>) -> Option<Seq<char>> {
    match s {
        Some(v) => Some(v@),
        None => None,
    }
}

/// Validates an issue before any tool with side effects runs: the number,
/// the title, and — when a template is configured — every `##`-delimited
/// template section name must appear as a heading in the body. The first
/// violated rule is returned as the error.
pub fn issue_validate(
    config: &crate::config::Config,
    issue_number: u64,
    issue_title: &str,
    issue_body: Option<String>,
) -> (r: Result<(), CoderError>)
    ensures
        ({
            let verdict = issue_validation_error(
                template_view(*config),
                issue_number,
                issue_title@,
                opt_view(issue_body),
            );
            match r {
                Ok(_) => verdict is None,
                Err(e) => e matches CoderError::ConfigError(m) && verdict == Some(m@),
            }
        }),
{
    if issue_number == 0 {
        return Err(CoderError::ConfigError("Issue number cannot be 0".to_owned()));
    }
    let tv = crate::text::chars_of(issue_title);
    let (ta, tb) = crate::text::trim_range(&tv, 0, tv.len());
    proof {
        assert(tv@.subrange(0, tv@.len() as int) =~= tv@);
    }
    if ta == tb {
        return Err(CoderError::ConfigError("Issue title cannot be empty".to_owned()));
    }
    let template = match &config.scm.issue_template {
        None => {
            return Ok(());
        },
        Some(t) => t,
    };
    let body = match &issue_body {
        None => {
            return Err(
                CoderError::ConfigError(
                    "Issue body is required when template is configured".to_owned(),
                ),
            );
        },
        Some(b) => b,
    };
    let tpl = crate::text::chars_of(template.as_str());
    let bv = crate::text::chars_of(body.as_str());
    let hash = crate::text::chars_of("##");
    proof {
        reveal_strlit("##");
        assert(hash@.len() == 2);
    }
    let tlen = tpl.len();
    let k0 = match crate::text::find_first(&tpl, &hash) {
        None => {
            return Ok(());
        },
        Some(i) => i,
    };
    let mut pos: usize = k0 + 2;
    loop
        invariant
            pos <= tpl@.len(),
            tlen == tpl@.len(),
            tpl@ == template@,
            bv@ == body@,
            hash@ == "##"@,
            hash@.len() == 2,
            config.scm.issue_template matches Some(t) && t == template,
            issue_body matches Some(b) && b == body,
            issue_validation_error(template_view(*config), issue_number, issue_title@, opt_view(issue_body))
                == check_sections_from(tpl@.skip(pos as int), bv@),
        decreases tpl@.len() - pos,
    {
        let ghost t_rest = tpl@.skip(pos as int);
        let next = crate::text::find_in_suffix(&tpl, pos, &hash);
        let send = match next {
            Some(i) => i,
            None => tpl.len(),
        };
        let ghost k = crate::text::find_index(t_rest, "##"@);
        proof {
            match next {
                Some(i) => {
                    assert(k == i - pos);
                },
                None => {
                    assert(k == -1);
                },
            }
        }
        // The current section runs from pos to send.
        if send == pos {
            proof {
                assert(check_sections_from(t_rest, bv@) == Some("Invalid template section"@));
            }
            return Err(CoderError::ConfigError("Invalid template section".to_owned()));
        }
        let ghost section = tpl@.subrange(pos as int, send as int);
        proof {
            if k < 0 || k > t_rest.len() {
                assert(section =~= t_rest);
            } else {
                assert(section =~= t_rest.take(k));
            }
        }
        match section_verdict(&tpl, template.as_str(), pos, send, &bv) {
            Some(e) => {
                proof {
                    let name = crate::text::trimmed(crate::text::first_line(section));
                    assert(check_sections_from(t_rest, bv@) == Some(
                        "Missing required section: "@ + name,
                    ));
                }
                return Err(e);
            },
            None => {
            },
        }
        match next {
            None => {
                proof {
                    assert(check_sections_from(t_rest, bv@) is None);
                }
                return Ok(());
            },
            Some(i) => {
                proof {
                    assert(i + 2 <= tpl@.len());
                    assert(t_rest.skip(k + 2) =~= tpl@.skip(i + 2));
                    assert(check_sections_from(t_rest, bv@) == check_sections_from(
                        tpl@.skip(i + 2),
                        bv@,
                    ));
                }
                pos = i + 2;
            },
        }
    }
}

/// Checks one template section against the issue body: its trimmed first
/// line must appear in the body under a section heading.
fn section_verdict(
    tpl: &Vec<char>,
    template: &str,
    pos: usize,
    send: usize,
    bv: &Vec<char>,
) -> (r: Option<CoderError>)
    requires
        pos < send <= tpl@.len(),
        tpl@ == template@,
    ensures
        ({
            let name = crate::text::trimmed(
                crate::text::first_line(tpl@.subrange(pos as int, send as int)),
            );
            match r {
                None => crate::text::contains_seq(bv@, section_marker(name)),
                Some(e) => {
                    &&& !crate::text::contains_seq(bv@, section_marker(name))
                    &&& e matches CoderError::ConfigError(m) && m@ == "Missing required section: "@
                        + name
                },
            }
        }),
{
    let ghost section = tpl@.subrange(pos as int, send as int);
    // Copy the section out to scan its first line.
    let mut sec: Vec<char> = Vec::new();
    let mut j: usize = pos;
    while j < send
        invariant
            pos <= j <= send <= tpl@.len(),
            sec@ == tpl@.subrange(pos as int, j as int),
        decreases send - j,
    {
        sec.push(tpl[j]);
        assert(sec@ =~= tpl@.subrange(pos as int, j + 1));
        j = j + 1;
    }
    proof {
        assert(sec@ == section);
    }
    let nl = crate::text::chars_of("\n");
    proof {
        reveal_strlit("\n");
        assert(nl@ =~= seq!['\n']);
    }
    let line_end = match crate::text::find_first(&sec, &nl) {
        None => sec.len(),
        Some(ni) => {
            if ni > 0 && sec[ni - 1] == '\r' {
                ni - 1
            } else {
                ni
            }
        },
    };
    proof {
        assert(sec@.take(line_end as int) =~= crate::text::first_line(section));
    }
    let (na, nb) = crate::text::trim_range(&sec, 0, line_end);
    let ghost name = crate::text::trimmed(crate::text::first_line(section));
    proof {
        assert(sec@.subrange(0, line_end as int) =~= sec@.take(line_end as int));
        assert(sec@.subrange(na as int, nb as int) == name);
    }
    // The heading that must appear in the body.
    let mut needle = crate::text::chars_of("## ");
    let mut q: usize = na;
    while q < nb
        invariant
            na <= q <= nb <= sec@.len(),
            sec@.subrange(na as int, nb as int) == name,
            needle@ == "## "@ + sec@.subrange(na as int, q as int),
        decreases nb - q,
    {
        needle.push(sec[q]);
        assert(needle@ =~= "## "@ + sec@.subrange(na as int, q + 1));
        q = q + 1;
    }
    proof {
        assert(needle@ == section_marker(name));
    }
    if !crate::text::contains_chars(bv, &needle) {
        let mut msg = "Missing required section: ".to_owned();
        proof {
            assert(tpl@.subrange(pos + na, pos + nb) =~= sec@.subrange(na as int, nb as int));
        }
        let name_str = template.substring_char(pos + na, pos + nb);
        msg.append(name_str);
        Some(CoderError::ConfigError(msg))
    } else {
        None
    }
}

} // verus!

//! The prompt texts sent to the model, assembled from fixed wording and
//! session data.

use vstd::prelude::*;

use crate::tools::snapshot_lookup;

verus! {

/// How the Debug formatting of a text reads: quoted and escaped, a
/// function of the characters alone.
pub uninterp spec fn debug_quoted_of(s: Seq<char>) -> Seq<char>;

/// Relies on the Debug formatting of `str`: it is deterministic in the
/// characters of the text.
#[verifier::external_body]
fn debug_quoted(s: &str) -> (r: String)
    ensures
        r@ == debug_quoted_of(s@),
{
    format!("{:?}", s)
}

/// The per-file blocks of a review prompt: one block for each requested
/// file whose content was retrieved, in request order.
pub open spec fn review_blocks(files: Seq<String>, contents: Seq<(String, String)>) -> Seq<char>
    decreases files.len(),
{
    if files.len() == 0 {
        Seq::empty()
    } else {
        let rest = review_blocks(files.drop_first(), contents);
        match snapshot_lookup(contents, files.first()@) {
            Some(text) => "FILE: "@ + files.first()@ + "\n```rust\n"@ + text + "\n```\n\n"@ + rest,
            None => rest,
        }
    }
}

/// The prompts of the agent.
pub struct Prompt;

impl Prompt {
    /// The opening prompt of a fix session: the issue and the project
    /// structure, followed by the review instructions.
    pub fn create_initial_prompt(tree: &str, issue_title: &str, issue_body: &str) -> (r: String)
        ensures
            r@ == "\n    ISSUE:\n    Title: "@ + issue_title@ + "\n    Description: "@
                + issue_body@ + "\n    \n    PROJECT STRUCTURE:\n    "@ + tree@
                + "\n    \n    As a software engineer, please help me fix this issue:\n    1. Review the project structure\n    2. Tell me which files you need to examine to understand and fix the issue\n    3. Wait for me to provide the content of each requested file\n    4. Once you have reviewed the files, suggest the changes needed to fix the issue\n    \n    Please start by listing which files you need to review first. Request them one at a time using the format:\n    REQUEST: <filename>\n\n    Provide the entire relative path to the file.\n\n    For example, if you need to review the file `src/main.rs`, you would type:\n\n    REQUEST: src/main.rs\n    \n    I will provide the content of each requested file before we proceed with the fix."@,
    {
        let mut out = "\n    ISSUE:\n    Title: ".to_owned();
        out.append(issue_title);
        out.append("\n    Description: ");
        out.append(issue_body);
        out.append("\n    \n    PROJECT STRUCTURE:\n    ");
        out.append(tree);
        out.append(
            "\n    \n    As a software engineer, please help me fix this issue:\n    1. Review the project structure\n    2. Tell me which files you need to examine to understand and fix the issue\n    3. Wait for me to provide the content of each requested file\n    4. Once you have reviewed the files, suggest the changes needed to fix the issue\n    \n    Please start by listing which files you need to review first. Request them one at a time using the format:\n    REQUEST: <filename>\n\n    Provide the entire relative path to the file.\n\n    For example, if you need to review the file `src/main.rs`, you would type:\n\n    REQUEST: src/main.rs\n    \n    I will provide the content of each requested file before we proceed with the fix.",
        );
        out
    }

    /// The prompt that hands retrieved file contents back to the model:
    /// one block per requested file that was found, between a fixed
    /// opening and closing.
    pub fn create_review_prompt(
        requested_files: &Vec<String>,
        contents: &Vec<(String, String)>,
    ) -> (r: String)
        ensures
            r@ == "I have retrieved the requested files. Here are their contents:\n\n"@
                + review_blocks(requested_files@, contents@)
                + "\nPlease review these files and suggest specific changes needed to fix the issue. Be precise and include the full corrected code if needed. If there are no files content simply answer that file contents is not provided.\n"@,
    {
        let mut out = "I have retrieved the requested files. Here are their contents:\n\n".to_owned();
        let ghost head = out@;
        let n = requested_files.len();
        let mut i: usize = 0;
        proof {
            assert(requested_files@.skip(0) =~= requested_files@);
        }
        while i < n
            invariant
                i <= n == requested_files@.len(),
                out@ + review_blocks(requested_files@.skip(i as int), contents@) == head
                    + review_blocks(requested_files@, contents@),
            decreases n - i,
        {
            let ghost rest = requested_files@.skip(i as int);
            proof {
                assert(rest.drop_first() =~= requested_files@.skip(i + 1));
                assert(rest.first() == requested_files@[i as int]);
            }
            match crate::tools::assoc_get(contents, requested_files[i].as_str()) {
                Some(text) => {
                    out.append("FILE: ");
                    out.append(requested_files[i].as_str());
                    out.append("\n```rust\n");
                    out.append(text.as_str());
                    out.append("\n```\n\n");
                    proof {
                        assert(out@ + review_blocks(requested_files@.skip(i + 1), contents@) =~= head
                            + review_blocks(requested_files@, contents@));
                    }
                },
                None => {
                },
            }
            i = i + 1;
        }
        proof {
            assert(requested_files@.skip(n as int) =~= Seq::<String>::empty());
            assert(out@ + review_blocks(requested_files@.skip(n as int), contents@) =~= out@);
        }
        out.append(
            "\nPlease review these files and suggest specific changes needed to fix the issue. Be precise and include the full corrected code if needed. If there are no files content simply answer that file contents is not provided.\n",
        );
        out
    }

    /// The system message of a review session.
    pub fn get_system_message() -> (r: String)
        ensures
            r@ == "You are a software engineer tasked with reviewing and fixing a GitHub issue."@,
    {
        "You are a software engineer tasked with reviewing and fixing a GitHub issue.".to_owned()
    }

    /// The prompt that asks the model to understand an issue before fixing
    /// it, and to propose an improved report when the description falls
    /// short.
    pub fn create_improved_bug_report_suggestion(issue_body: &str, issue_title: &str) -> (r: String)
        ensures
            r@ == "Don't immediately attempt to fix it. First try to understand the issue by asking the following questions:\n\n1. What is the issue about?\n2. What is the expected behavior?\n3. What are the steps to reproduce the issue?\n\nIf all the above questions are answered, then you can proceed to fix the issue. If you want to proceed with the fix, answer with the following format:\n\nIssue is decribed correctly, proceeding with the fix.\n\nIf not, please improve this GitHub issue while keeping its core meaning:\n\nThe Github Issue:\n---\n\n**Title**: "@
                + issue_title@ + "\n**Description**: "@ + debug_quoted_of(issue_body@)
                + "\n\nAsk follow-up questions if you need to clarify more details.\nFor example you can ask: \"What is the issue about?\" or \"What is the expected behavior?\"\n\nIn the following format: Question - <your question here>\n\nThe revised issue description should be in the following format:\n---\n**Title:** <improved title>\n**Description:** <improved description>\n\n## Summary\n<summary of the issue>\n\n## Expected Behavior\n<expected behavior>\n\n## Steps to Reproduce\n<steps to reproduce>\n---\n\nFinally, if revised an improved version of the issue, ask the user to confirm the changes by answering with the following format:\n\nWould you like to update the GitHub issue with this improved description? (y/N)\n\n"@,
    {
        let mut out =
            "Don't immediately attempt to fix it. First try to understand the issue by asking the following questions:\n\n1. What is the issue about?\n2. What is the expected behavior?\n3. What are the steps to reproduce the issue?\n\nIf all the above questions are answered, then you can proceed to fix the issue. If you want to proceed with the fix, answer with the following format:\n\nIssue is decribed correctly, proceeding with the fix.\n\nIf not, please improve this GitHub issue while keeping its core meaning:\n\nThe Github Issue:\n---\n\n**Title**: ".to_owned();
        out.append(issue_title);
        out.append("\n**Description**: ");
        out.append(debug_quoted(issue_body).as_str());
        out.append(
            "\n\nAsk follow-up questions if you need to clarify more details.\nFor example you can ask: \"What is the issue about?\" or \"What is the expected behavior?\"\n\nIn the following format: Question - <your question here>\n\nThe revised issue description should be in the following format:\n---\n**Title:** <improved title>\n**Description:** <improved description>\n\n## Summary\n<summary of the issue>\n\n## Expected Behavior\n<expected behavior>\n\n## Steps to Reproduce\n<steps to reproduce>\n---\n\nFinally, if revised an improved version of the issue, ask the user to confirm the changes by answering with the following format:\n\nWould you like to update the GitHub issue with this improved description? (y/N)\n\n",
        );
        out
    }
}

} // verus!

//! Configuration of a session: language commands, source-control
//! coordinates, agent model settings, and the inference endpoint.
//!
//! Loading the file from disk and reading the process environment happen
//! outside the library; the library owns the default values and the rule for
//! applying overrides on top of a loaded configuration.

use vstd::prelude::*;

use crate::text::parse_usize_spec;

verus! {

/// Commands and references for the active language profile.
pub struct LanguageConfig {
    pub name: String,
    pub analyse: String,
    pub linter: String,
    pub test_command: String,
    pub docs_url: String,
}

/// Coordinates of the source-control and issue-tracker service.
pub struct ScmConfig {
    pub name: String,
    pub owner: String,
    pub repository: String,
    pub issue_template: Option<String>,
}

/// Model settings for the agent.
pub struct AgentConfig {
    pub model: String,
    pub provider: String,
    pub max_tokens: Option<usize>,
}

/// The inference service endpoint.
pub struct ApiConfig {
    pub endpoint: String,
}

/// The whole configuration of a session.
pub struct Config {
    pub language: LanguageConfig,
    pub scm: ScmConfig,
    pub agent: AgentConfig,
    pub api: ApiConfig,
}

impl Default for Config {
    /// The built-in configuration: a Rust profile, an empty source-control
    /// section with the standard issue template, and a local inference
    /// endpoint.
    fn default() -> (c: Self)
        ensures
            c.language.name@ == "rust"@,
            c.language.linter@ == "cargo fmt"@,
            c.language.analyse@ == "cargo clippy"@,
            c.language.test_command@ == "cargo test"@,
            c.language.docs_url@ == "https://docs.rs"@,
            c.scm.name@ == ""@,
            c.scm.owner@ == ""@,
            c.scm.repository@ == ""@,
            c.scm.issue_template matches Some(t) && t@
                == "## Description\n## Steps to Reproduce\n## Expected Behavior\n## Actual Behavior\n## Environment"@,
            c.agent.provider@ == "groq"@,
            c.agent.model@ == "deepseek-r1-distill-llama-70b"@,
            c.agent.max_tokens == Some(4000usize),
            c.api.endpoint@ == "http://localhost:8080/v1"@,
    {
        Config {
            language: LanguageConfig {
                name: "rust".to_owned(),
                linter: "cargo fmt".to_owned(),
                analyse: "cargo clippy".to_owned(),
                test_command: "cargo test".to_owned(),
                docs_url: "https://docs.rs".to_owned(),
            },
            scm: ScmConfig {
                name: "".to_owned(),
                owner: "".to_owned(),
                repository: "".to_owned(),
                issue_template: Some(
                    "## Description\n## Steps to Reproduce\n## Expected Behavior\n## Actual Behavior\n## Environment".to_owned(),
                ),
            },
            agent: AgentConfig {
                provider: "groq".to_owned(),
                model: "deepseek-r1-distill-llama-70b".to_owned(),
                max_tokens: Some(4000),
            },
            api: ApiConfig { endpoint: "http://localhost:8080/v1".to_owned() },
        }
    }
}

/// Values read from the process environment, each overriding one
/// configuration field when present.
pub struct ConfigOverrides {
    pub language_name: Option<String>,
    pub language_analyse: Option<String>,
    pub language_linter: Option<String>,
    pub language_test_command: Option<String>,
    pub language_docs_url: Option<String>,
    pub api_endpoint: Option<String>,
    pub scm_name: Option<String>,
    pub scm_owner: Option<String>,
    pub scm_repository: Option<String>,
    pub agent_provider: Option<String>,
    pub agent_model: Option<String>,
    pub agent_max_tokens: Option<String>,
}

/// The field value after an optional override.
pub open spec fn overridden(ov: Option<String>, base: String) -> String {
    match ov {
        Some(v) => v,
        None => base,
    }
}

/// Replaces a field by its override when one is present.
fn take_over(ov: Option<String>, base: String) -> (r: String)
    ensures
        r == overridden(ov, base),
{
    match ov {
        Some(v) => v,
        None => base,
    }
}

/// Applies environment overrides on top of a loaded configuration. Every
/// present override replaces the corresponding field; the token budget
/// override must parse as a number, otherwise it is ignored.
pub fn apply_overrides(config: Config, ov: ConfigOverrides) -> (c: Config)
    ensures
        c.language.name == overridden(ov.language_name, config.language.name),
        c.language.analyse == overridden(ov.language_analyse, config.language.analyse),
        c.language.linter == overridden(ov.language_linter, config.language.linter),
        c.language.test_command == overridden(
            ov.language_test_command,
            config.language.test_command,
        ),
        c.language.docs_url == overridden(ov.language_docs_url, config.language.docs_url),
        c.api.endpoint == overridden(ov.api_endpoint, config.api.endpoint),
        c.scm.name == overridden(ov.scm_name, config.scm.name),
        c.scm.owner == overridden(ov.scm_owner, config.scm.owner),
        c.scm.repository == overridden(ov.scm_repository, config.scm.repository),
        c.scm.issue_template == config.scm.issue_template,
        c.agent.provider == overridden(ov.agent_provider, config.agent.provider),
        c.agent.model == overridden(ov.agent_model, config.agent.model),
        c.agent.max_tokens == (match ov.agent_max_tokens {
            Some(s) => match parse_usize_spec(s@) {
                Some(n) => Some(n as usize),
                None => config.agent.max_tokens,
            },
            None => config.agent.max_tokens,
        }),
{
    let max_tokens = match &ov.agent_max_tokens {
        Some(s) => {
            let chars = crate::text::chars_of(s.as_str());
            match crate::text::parse_usize_chars(&chars) {
                Some(n) => Some(n),
                None => config.agent.max_tokens,
            }
        },
        None => config.agent.max_tokens,
    };
    Config {
        language: LanguageConfig {
            name: take_over(ov.language_name, config.language.name),
            analyse: take_over(ov.language_analyse, config.language.analyse),
            linter: take_over(ov.language_linter, config.language.linter),
            test_command: take_over(ov.language_test_command, config.language.test_command),
            docs_url: take_over(ov.language_docs_url, config.language.docs_url),
        },
        scm: ScmConfig {
            name: take_over(ov.scm_name, config.scm.name),
            owner: take_over(ov.scm_owner, config.scm.owner),
            repository: take_over(ov.scm_repository, config.scm.repository),
            issue_template: config.scm.issue_template,
        },
        agent: AgentConfig {
            provider: take_over(ov.agent_provider, config.agent.provider),
            model: take_over(ov.agent_model, config.agent.model),
            max_tokens,
        },
        api: ApiConfig { endpoint: take_over(ov.api_endpoint, config.api.endpoint) },
    }
}

} // verus!

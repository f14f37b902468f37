use coder::config::apply_overrides;
use coder::config::Config;
use coder::config::ConfigOverrides;

#[test]
fn test_default_config() {
    let config = Config::default();
    assert_eq!(config.language.name, "rust");
    assert_eq!(config.language.linter, "cargo fmt");
    assert_eq!(config.language.analyse, "cargo clippy");
    assert_eq!(config.language.test_command, "cargo test");
    assert_eq!(config.language.docs_url, "https://docs.rs");

    assert_eq!(config.agent.provider, "groq");
    assert_eq!(config.agent.model, "deepseek-r1-distill-llama-70b");
    assert_eq!(config.agent.max_tokens, Some(4000));

    assert_eq!(config.api.endpoint, "http://localhost:8080/v1");
}

#[test]
fn default_issue_template_lists_the_sections() {
    let config = Config::default();
    assert_eq!(
        config.scm.issue_template.as_deref(),
        Some("## Description\n## Steps to Reproduce\n## Expected Behavior\n## Actual Behavior\n## Environment")
    );
}

fn no_overrides() -> ConfigOverrides {
    ConfigOverrides {
        language_name: None,
        language_analyse: None,
        language_linter: None,
        language_test_command: None,
        language_docs_url: None,
        api_endpoint: None,
        scm_name: None,
        scm_owner: None,
        scm_repository: None,
        agent_provider: None,
        agent_model: None,
        agent_max_tokens: None,
    }
}

#[test]
fn overrides_replace_present_fields_only() {
    let config = Config::default();
    let mut ov = no_overrides();
    ov.language_name = Some("python".to_string());
    ov.scm_name = Some("gitlab".to_string());
    ov.agent_model = Some("new-model".to_string());
    ov.agent_max_tokens = Some("2000".to_string());
    let config = apply_overrides(config, ov);
    assert_eq!(config.language.name, "python");
    assert_eq!(config.scm.name, "gitlab");
    assert_eq!(config.agent.model, "new-model");
    assert_eq!(config.agent.max_tokens, Some(2000));
    assert_eq!(config.language.linter, "cargo fmt");
    assert_eq!(config.api.endpoint, "http://localhost:8080/v1");
}

#[test]
fn invalid_max_tokens_override_is_ignored() {
    let mut config = Config::default();
    config.agent.max_tokens = Some(1000);
    let mut ov = no_overrides();
    ov.agent_max_tokens = Some("not_a_number".to_string());
    let config = apply_overrides(config, ov);
    assert_eq!(config.agent.max_tokens, Some(1000));
}

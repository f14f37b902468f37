use coder::cli::validate_issue_number;
use coder::config::Config;
use coder::errors::CoderError;
use coder::tools::issue_validate;

#[test]
fn test_issue_number_validation() {
    let result = validate_issue_number("invalid");
    assert!(result.is_err());
    assert_eq!(
        result.unwrap_err().to_string(),
        "Invalid issue number: invalid"
    );
    let result = validate_issue_number("#0");
    assert!(result.is_err());
    assert_eq!(result.unwrap_err().to_string(), "Issue number cannot be 0");

    assert!(validate_issue_number("42").is_ok());
    assert!(validate_issue_number("#123").is_ok());

    let result = validate_issue_number("-1");
    assert!(result.is_err());
    assert_eq!(
        result.unwrap_err().to_string(),
        "Issue number cannot be negative"
    );
}

#[test]
fn issue_number_values() {
    assert_eq!(validate_issue_number("42").unwrap(), 42);
    assert_eq!(validate_issue_number("#123").unwrap(), 123);
    assert_eq!(validate_issue_number("##7").unwrap(), 7);
    assert_eq!(validate_issue_number("+5").unwrap(), 5);
    assert_eq!(validate_issue_number("2147483647").unwrap(), 2147483647);
    assert!(validate_issue_number("2147483648").is_err());
    assert!(validate_issue_number("").is_err());
    assert!(validate_issue_number("#").is_err());
}

fn config_error_text(e: CoderError) -> String {
    match e {
        CoderError::ConfigError(m) => m,
        _ => panic!("expected a configuration error"),
    }
}

#[test]
fn issue_validate_rejects_zero_number() {
    let config = Config::default();
    let r = issue_validate(&config, 0, "A title", None);
    assert_eq!(config_error_text(r.unwrap_err()), "Issue number cannot be 0");
}

#[test]
fn issue_validate_rejects_blank_title() {
    // An issue with an empty title fails citing the title, before any
    // network call for pull-request creation could be attempted.
    let config = Config::default();
    let r = issue_validate(&config, 5, "   ", None);
    let m = config_error_text(r.unwrap_err());
    assert!(m.contains("title"));
    assert_eq!(m, "Issue title cannot be empty");
}

#[test]
fn issue_validate_requires_body_with_template() {
    let config = Config::default();
    let r = issue_validate(&config, 5, "A title", None);
    assert_eq!(
        config_error_text(r.unwrap_err()),
        "Issue body is required when template is configured"
    );
}

#[test]
fn issue_validate_reports_first_missing_section() {
    let config = Config::default();
    let body = "## Description\nit breaks\n## Expected Behavior\nno break".to_string();
    let r = issue_validate(&config, 5, "A title", Some(body));
    assert_eq!(
        config_error_text(r.unwrap_err()),
        "Missing required section: Steps to Reproduce"
    );
}

#[test]
fn issue_validate_accepts_complete_body() {
    let config = Config::default();
    let body = "## Description\nd\n## Steps to Reproduce\ns\n## Expected Behavior\ne\n## Actual Behavior\na\n## Environment\nlinux".to_string();
    assert!(issue_validate(&config, 5, "A title", Some(body)).is_ok());
}

#[test]
fn issue_validate_without_template_needs_no_body() {
    let mut config = Config::default();
    config.scm.issue_template = None;
    assert!(issue_validate(&config, 5, "A title", None).is_ok());
}

#[test]
fn issue_validate_rejects_empty_template_section() {
    let mut config = Config::default();
    config.scm.issue_template = Some("####Description".to_string());
    let r = issue_validate(&config, 5, "A title", Some("anything".to_string()));
    assert_eq!(config_error_text(r.unwrap_err()), "Invalid template section");
}

use aerolithdb::integration::{CaseFailure, CliTestCase, CliTestRunner, StepFailure, check_step, server_url_or_default};
use std::time::Duration;

#[test]
fn test_cli_test_case_creation() {
    let test_case = CliTestCase {
        name: "Test Case".to_string(),
        command: vec!["health".to_string()],
        expected_exit_code: 0,
        expected_output_contains: None,
        expected_error_contains: None,
        setup: None,
        cleanup: None,
    };

    assert_eq!(test_case.name, "Test Case");
    assert_eq!(test_case.command, vec!["health"]);
    assert_eq!(test_case.expected_exit_code, 0);
}

#[test]
fn test_cli_test_runner_creation() {
    let runner = CliTestRunner::new("http://localhost:8080".to_string());
    assert_eq!(runner.server_url, "http://localhost:8080");
    assert_eq!(runner.timeout, Duration::from_secs(30));
}

#[test]
fn standard_suite_has_ten_cases_in_order() {
    let runner = CliTestRunner::new("http://localhost:8080".to_string());
    let cases = runner.create_test_cases();
    assert_eq!(cases.len(), 10);
    assert_eq!(cases[0].name, "Health Check - Basic");
    assert_eq!(cases[0].command, vec!["health"]);
    assert_eq!(cases[0].expected_output_contains.as_deref(), Some("Server is healthy"));
    assert_eq!(cases[4].expected_output_contains, None);
    assert_eq!(cases[9].command, vec!["delete", "test_users", "integration_test_user", "--force"]);
}

#[test]
fn command_line_prefixes_server_and_timeout() {
    let runner = CliTestRunner::new("http://db:9000".to_string());
    let cases = runner.create_test_cases();
    let args = runner.command_line(&cases[5]);
    assert_eq!(args, vec!["--url", "http://db:9000", "--timeout", "30", "stats"]);
}

#[test]
fn outcome_checks_exit_code_then_output() {
    let runner = CliTestRunner::new("http://localhost:8080".to_string());
    let cases = runner.create_test_cases();
    assert_eq!(CliTestRunner::check_outcome(&cases[0], 0, "✓ Server is healthy", ""), Ok(()));
    assert_eq!(
        CliTestRunner::check_outcome(&cases[0], 1, "✓ Server is healthy", ""),
        Err(CaseFailure::ExitCode { expected: 0, actual: 1 })
    );
    assert_eq!(CliTestRunner::check_outcome(&cases[0], 0, "down", ""), Err(CaseFailure::MissingOutput));
    let mut case = CliTestCase {
        name: "e".to_string(),
        command: vec![],
        expected_exit_code: 2,
        expected_output_contains: None,
        expected_error_contains: Some("boom".to_string()),
        setup: None,
        cleanup: None,
    };
    assert_eq!(CliTestRunner::check_outcome(&case, 2, "", "no"), Err(CaseFailure::MissingError));
    case.expected_error_contains = Some("o".to_string());
    assert_eq!(CliTestRunner::check_outcome(&case, 2, "", "no"), Ok(()));
}

#[test]
fn tally_counts_passes_and_failures() {
    assert_eq!(CliTestRunner::tally(&vec![true, false, true, true]), (3, 1));
    assert_eq!(CliTestRunner::tally(&vec![]), (0, 0));
}

#[test]
fn default_server_url() {
    assert_eq!(server_url_or_default(None), "http://localhost:8080");
    assert_eq!(server_url_or_default(Some("http://x".to_string())), "http://x");
}

#[test]
fn workflows_and_step_verdicts() {
    let runner = CliTestRunner::new("http://h:1".to_string());
    let crud = runner.crud_workflow();
    assert_eq!(crud.len(), 4);
    assert_eq!(crud[0].args[..4].to_vec(), vec!["--url", "http://h:1", "put", "workflow_test"]);
    assert_eq!(crud[0].args[5], r#"{"title": "Workflow Test", "status": "active", "priority": 1}"#);
    assert_eq!(crud[3].args.last().unwrap(), "--force");
    assert_eq!(crud[1].required_output, vec!["Workflow Test".to_string()]);
    let batch = runner.batch_workflow();
    assert_eq!(batch[0].args, vec!["--url", "http://h:1", "config-generate", "--template", "basic", "--format", "json"]);
    let config = runner.config_workflow();
    assert_eq!(config[0].args, vec!["config-generate", "--template", "basic", "--format", "yaml"]);
    assert_eq!(check_step(&config[0], false, ""), Err(StepFailure::Command("Config generation failed".to_string())));
    assert_eq!(
        check_step(&config[0], true, "node:\n  id: 1\n"),
        Err(StepFailure::MissingOutput("Generated config missing expected sections".to_string()))
    );
    assert_eq!(check_step(&config[0], true, "node:\nstorage:\n"), Ok(()));
    assert_eq!(check_step(&crud[0], true, ""), Ok(()));
}

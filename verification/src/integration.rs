//! End-to-end checks of the command-line client: the standard test cases, the
//! command line each one runs, and the verdict on what a run printed.
use vstd::prelude::*;
use std::time::Duration;
use crate::text::{owned, str_contains, contains_seq, strings_view, opt_view};

verus! {

/// The duration of `secs` whole seconds, as std's `Duration::from_secs` builds it.
pub uninterp spec fn duration_of_secs(secs: u64) -> Duration;

/// std's `Duration::from_secs`: the result is the duration of `secs` seconds,
/// a value fixed by `secs` alone.
#[verifier::external_body]
pub(crate) fn seconds(secs: u64) -> (d: Duration)
    ensures
        d == duration_of_secs(secs),
{
    Duration::from_secs(secs)
}

/// A command-line test case: the arguments to run, the exit code expected, and
/// text that standard output or standard error must contain. A hook is the
/// argument list of a further command run before (`setup`) or after (`cleanup`).
#[derive(Debug)]
pub struct CliTestCase {
    pub name: String,
    pub command: Vec<String>,
    pub expected_exit_code: i32,
    pub expected_output_contains: Option<String>,
    pub expected_error_contains: Option<String>,
    pub setup: Option<Vec<String>>,
    pub cleanup: Option<Vec<String>>,
}

/// The mathematical form of a test case.
pub struct CaseModel {
    pub name: Seq<char>,
    pub command: Seq<Seq<char>>,
    pub expected_exit_code: int,
    pub expected_output_contains: Option<Seq<char>>,
    pub expected_error_contains: Option<Seq<char>>,
    pub setup: Option<Seq<Seq<char>>>,
    pub cleanup: Option<Seq<Seq<char>>>,
}

/// The view of an optional hook.
pub open spec fn hook_view(h: Option<Vec<String>>) -> Option<Seq<Seq<char>>> {
    match h {
        Some(v) => Some(strings_view(v@)),
        None => None,
    }
}

impl View for CliTestCase {
    type V = CaseModel;

    open spec fn view(&self) -> CaseModel {
        CaseModel {
            name: self.name@,
            command: strings_view(self.command@),
            expected_exit_code: self.expected_exit_code as int,
            expected_output_contains: opt_view(self.expected_output_contains),
            expected_error_contains: opt_view(self.expected_error_contains),
            setup: hook_view(self.setup),
            cleanup: hook_view(self.cleanup),
        }
    }
}

/// A case that expects exit code 0, the given text on standard output if any,
/// nothing of standard error, and has no hooks.
pub open spec fn passing_case(
    name: Seq<char>,
    command: Seq<Seq<char>>,
    output: Option<Seq<char>>,
) -> CaseModel {
    CaseModel {
        name,
        command,
        expected_exit_code: 0,
        expected_output_contains: output,
        expected_error_contains: None,
        setup: None,
        cleanup: None,
    }
}

/// The standard integration suite, in the order in which it runs.
pub open spec fn standard_cases() -> Seq<CaseModel> {
    seq![
        passing_case("Health Check - Basic"@, seq!["health"@], Some("Server is healthy"@)),
        passing_case(
            "Document Operations - PUT/GET/DELETE Workflow"@,
            seq![
                "put"@,
                "test_users"@,
                "integration_test_user"@,
                "{\"name\": \"Integration Test User\", \"role\": \"tester\"}"@,
            ],
            Some("successfully"@),
        ),
        passing_case(
            "Document Operations - GET Created Document"@,
            seq!["get"@, "test_users"@, "integration_test_user"@],
            Some("Integration Test User"@),
        ),
        passing_case(
            "Query Operations - Basic Filter"@,
            seq![
                "query"@,
                "test_users"@,
                "--filter"@,
                "{\"role\": \"tester\"}"@,
                "--limit"@,
                "10"@,
            ],
            Some("Integration Test User"@),
        ),
        passing_case(
            "List Operations - Collection Listing"@,
            seq!["list"@, "test_users"@, "--limit"@, "5"@],
            None,
        ),
        passing_case("Statistics - Basic Stats"@, seq!["stats"@], Some("collections"@)),
        passing_case(
            "Config Management - Generate Basic Template"@,
            seq!["config-generate"@, "--template"@, "basic"@, "--format"@, "json"@],
            Some("node"@),
        ),
        passing_case(
            "Batch Operations - Small Batch PUT"@,
            seq![
                "batch-put"@,
                "test_batch"@,
                "--stdin"@,
                "--format"@,
                "jsonl"@,
                "--batch-size"@,
                "2"@,
            ],
            Some("successfully"@),
        ),
        passing_case(
            "Analytics - Query Patterns Report"@,
            seq!["analytics"@, "--report-type"@, "query-patterns"@, "--time-range"@, "1h"@],
            None,
        ),
        passing_case(
            "Cleanup - Delete Test Document"@,
            seq!["delete"@, "test_users"@, "integration_test_user"@, "--force"@],
            Some("successfully"@),
        ),
    ]
}

/// Owned copies of the given string slices, in order.
pub fn owned_all(parts: &[&str]) -> (v: Vec<String>)
    ensures
        strings_view(v@) == parts@.map_values(|s: &str| s@),
{
    let mut v: Vec<String> = Vec::new();
    let mut i: usize = 0;
    while i < parts.len()
        invariant
            i <= parts@.len(),
            v@.len() == i,
            forall|k: int| 0 <= k < i ==> #[trigger] v@[k]@ == parts@[k]@,
        decreases parts@.len() - i,
    {
        v.push(owned(parts[i]));
        i = i + 1;
    }
    assert(strings_view(v@) =~= parts@.map_values(|s: &str| s@));
    v
}

fn passing(name: &str, command: &[&str], output: Option<&str>) -> (c: CliTestCase)
    ensures
        c@ == passing_case(
            name@,
            command@.map_values(|s: &str| s@),
            match output {
                Some(o) => Some(o@),
                None => None,
            },
        ),
{
    let out = match output {
        Some(o) => Some(owned(o)),
        None => None,
    };
    CliTestCase {
        name: owned(name),
        command: owned_all(command),
        expected_exit_code: 0,
        expected_output_contains: out,
        expected_error_contains: None,
        setup: None,
        cleanup: None,
    }
}

/// What went wrong in a test case's run.
#[derive(Debug, PartialEq, Eq)]
pub enum CaseFailure {
    /// The process exited with another code than the one expected.
    ExitCode { expected: i32, actual: i32 },
    /// Standard output lacks the text expected in it.
    MissingOutput,
    /// Standard error lacks the text expected in it.
    MissingError,
}

/// Runs the command-line client's integration cases against one server.
pub struct CliTestRunner {
    pub server_url: String,
    pub timeout: Duration,
}

impl CliTestRunner {
    /// A runner for the server at `server_url` with a 30 second timeout.
    pub fn new(server_url: String) -> (r: Self)
        ensures
            r.server_url@ == server_url@,
            r.timeout == duration_of_secs(30),
    {
        CliTestRunner { server_url, timeout: seconds(30) }
    }

    /// The standard set of integration cases.
    pub fn create_test_cases(&self) -> (cases: Vec<CliTestCase>)
        ensures
            cases@.map_values(|c: CliTestCase| c@) == standard_cases(),
    {
        let command0: &[&str] = &["health"];
        assert(command0@.map_values(|s: &str| s@) =~= seq!["health"@]);
        let case0 = passing("Health Check - Basic", command0, Some("Server is healthy"));
        let command1: &[&str] = &["put", "test_users", "integration_test_user", "{\"name\": \"Integration Test User\", \"role\": \"tester\"}"];
        assert(command1@.map_values(|s: &str| s@) =~= seq!["put"@, "test_users"@, "integration_test_user"@, "{\"name\": \"Integration Test User\", \"role\": \"tester\"}"@]);
        let case1 = passing("Document Operations - PUT/GET/DELETE Workflow", command1, Some("successfully"));
        let command2: &[&str] = &["get", "test_users", "integration_test_user"];
        assert(command2@.map_values(|s: &str| s@) =~= seq!["get"@, "test_users"@, "integration_test_user"@]);
        let case2 = passing("Document Operations - GET Created Document", command2, Some("Integration Test User"));
        let command3: &[&str] = &["query", "test_users", "--filter", "{\"role\": \"tester\"}", "--limit", "10"];
        assert(command3@.map_values(|s: &str| s@) =~= seq!["query"@, "test_users"@, "--filter"@, "{\"role\": \"tester\"}"@, "--limit"@, "10"@]);
        let case3 = passing("Query Operations - Basic Filter", command3, Some("Integration Test User"));
        let command4: &[&str] = &["list", "test_users", "--limit", "5"];
        assert(command4@.map_values(|s: &str| s@) =~= seq!["list"@, "test_users"@, "--limit"@, "5"@]);
        let case4 = passing("List Operations - Collection Listing", command4, None);
        let command5: &[&str] = &["stats"];
        assert(command5@.map_values(|s: &str| s@) =~= seq!["stats"@]);
        let case5 = passing("Statistics - Basic Stats", command5, Some("collections"));
        let command6: &[&str] = &["config-generate", "--template", "basic", "--format", "json"];
        assert(command6@.map_values(|s: &str| s@) =~= seq!["config-generate"@, "--template"@, "basic"@, "--format"@, "json"@]);
        let case6 = passing("Config Management - Generate Basic Template", command6, Some("node"));
        let command7: &[&str] = &["batch-put", "test_batch", "--stdin", "--format", "jsonl", "--batch-size", "2"];
        assert(command7@.map_values(|s: &str| s@) =~= seq!["batch-put"@, "test_batch"@, "--stdin"@, "--format"@, "jsonl"@, "--batch-size"@, "2"@]);
        let case7 = passing("Batch Operations - Small Batch PUT", command7, Some("successfully"));
        let command8: &[&str] = &["analytics", "--report-type", "query-patterns", "--time-range", "1h"];
        assert(command8@.map_values(|s: &str| s@) =~= seq!["analytics"@, "--report-type"@, "query-patterns"@, "--time-range"@, "1h"@]);
        let case8 = passing("Analytics - Query Patterns Report", command8, None);
        let command9: &[&str] = &["delete", "test_users", "integration_test_user", "--force"];
        assert(command9@.map_values(|s: &str| s@) =~= seq!["delete"@, "test_users"@, "integration_test_user"@, "--force"@]);
        let case9 = passing("Cleanup - Delete Test Document", command9, Some("successfully"));
        let cases = vec![case0, case1, case2, case3, case4, case5, case6, case7, case8, case9];
        assert(cases@.map_values(|c: CliTestCase| c@) =~= standard_cases());
        cases
    }
}

/// Copies of the given strings, in order.
pub fn clone_all(parts: &Vec<String>) -> (v: Vec<String>)
    ensures
        strings_view(v@) == strings_view(parts@),
{
    let mut v: Vec<String> = Vec::new();
    let mut i: usize = 0;
    while i < parts.len()
        invariant
            i <= parts@.len(),
            v@.len() == i,
            forall|k: int| 0 <= k < i ==> #[trigger] v@[k]@ == parts@[k]@,
        decreases parts@.len() - i,
    {
        v.push(parts[i].clone());
        i = i + 1;
    }
    assert(strings_view(v@) =~= strings_view(parts@));
    v
}

/// The arguments that run a case against a server: the server's URL, a 30 second
/// timeout, then the case's own arguments.
pub open spec fn case_arguments(server_url: Seq<char>, command: Seq<Seq<char>>) -> Seq<Seq<char>> {
    seq!["--url"@, server_url, "--timeout"@, "30"@] + command
}

/// The verdict on one run of a case: first the exit code, then the text expected
/// on standard output, then the text expected on standard error.
pub open spec fn case_verdict(
    case: CaseModel,
    exit_code: int,
    stdout: Seq<char>,
    stderr: Seq<char>,
) -> Result<(), CaseFailure> {
    if exit_code != case.expected_exit_code {
        Err(CaseFailure::ExitCode { expected: case.expected_exit_code as i32, actual: exit_code as i32 })
    } else if case.expected_output_contains is Some && !contains_seq(
        stdout,
        case.expected_output_contains->0,
    ) {
        Err(CaseFailure::MissingOutput)
    } else if case.expected_error_contains is Some && !contains_seq(
        stderr,
        case.expected_error_contains->0,
    ) {
        Err(CaseFailure::MissingError)
    } else {
        Ok(())
    }
}

/// How many runs passed.
pub open spec fn count_passed(outcomes: Seq<bool>) -> nat
    decreases outcomes.len(),
{
    if outcomes.len() == 0 {
        0
    } else {
        count_passed(outcomes.drop_last()) + if outcomes.last() { 1nat } else { 0nat }
    }
}

impl CliTestRunner {
    /// The full argument list that runs `case` against this runner's server.
    pub fn command_line(&self, case: &CliTestCase) -> (args: Vec<String>)
        ensures
            strings_view(args@) == case_arguments(self.server_url@, case@.command),
    {
        let mut args = vec![owned("--url"), self.server_url.clone(), owned("--timeout"), owned("30")];
        let rest = clone_all(&case.command);
        let mut i: usize = 0;
        while i < rest.len()
            invariant
                i <= rest@.len(),
                strings_view(rest@) == case@.command,
                args@.len() == 4 + i,
                strings_view(args@) == seq!["--url"@, self.server_url@, "--timeout"@, "30"@]
                    + strings_view(rest@).take(i as int),
            decreases rest@.len() - i,
        {
            let ghost before = args@;
            args.push(rest[i].clone());
            i = i + 1;
            assert(strings_view(args@) =~= strings_view(before).push(rest@[i - 1]@));
            assert(strings_view(rest@).take(i as int) =~= strings_view(rest@).take(
                (i - 1) as int,
            ).push(rest@[i - 1]@));
        }
        assert(strings_view(rest@).take(rest@.len() as int) =~= strings_view(rest@));
        args
    }

    /// Judges one run of `case` from its exit code and what it printed.
    pub fn check_outcome(case: &CliTestCase, exit_code: i32, stdout: &str, stderr: &str) -> (r: Result<
        (),
        CaseFailure,
    >)
        ensures
            r == case_verdict(case@, exit_code as int, stdout@, stderr@),
    {
        if exit_code != case.expected_exit_code {
            return Err(CaseFailure::ExitCode { expected: case.expected_exit_code, actual: exit_code });
        }
        match &case.expected_output_contains {
            Some(expected) => {
                if !str_contains(stdout, expected.as_str()) {
                    return Err(CaseFailure::MissingOutput);
                }
            },
            None => {},
        }
        match &case.expected_error_contains {
            Some(expected) => {
                if !str_contains(stderr, expected.as_str()) {
                    return Err(CaseFailure::MissingError);
                }
            },
            None => {},
        }
        Ok(())
    }

    /// The passed and failed counts of a run of the suite; the suite fails when any
    /// case failed.
    pub fn tally(outcomes: &Vec<bool>) -> (r: (usize, usize))
        ensures
            r.0 == count_passed(outcomes@),
            r.0 + r.1 == outcomes@.len(),
    {
        let mut passed: usize = 0;
        let mut failed: usize = 0;
        let mut i: usize = 0;
        while i < outcomes.len()
            invariant
                i <= outcomes@.len(),
                passed == count_passed(outcomes@.take(i as int)),
                passed + failed == i,
            decreases outcomes@.len() - i,
        {
            assert(outcomes@.take((i + 1) as int).drop_last() =~= outcomes@.take(i as int));
            if outcomes[i] {
                passed = passed + 1;
            } else {
                failed = failed + 1;
            }
            i = i + 1;
        }
        assert(outcomes@.take(outcomes@.len() as int) =~= outcomes@);
        (passed, failed)
    }
}

/// One command of a workflow: its arguments, what to report when it fails, and the
/// texts its standard output must hold, with what to report when one is missing.
#[derive(Debug)]
pub struct WorkflowStep {
    pub args: Vec<String>,
    pub failure_label: String,
    pub required_output: Vec<String>,
    pub missing_output_message: String,
}

/// The mathematical form of a workflow step.
pub struct StepModel {
    pub args: Seq<Seq<char>>,
    pub failure_label: Seq<char>,
    pub required_output: Seq<Seq<char>>,
    pub missing_output_message: Seq<char>,
}

impl WorkflowStep {
    pub open spec fn view(&self) -> StepModel {
        StepModel {
            args: strings_view(self.args@),
            failure_label: self.failure_label@,
            required_output: strings_view(self.required_output@),
            missing_output_message: self.missing_output_message@,
        }
    }
}

/// Why a workflow step failed.
#[derive(Debug, PartialEq, Eq)]
pub enum StepFailure {
    /// The command did not succeed; the report starts with this label.
    Command(String),
    /// Its output lacks a required text; this is the report.
    MissingOutput(String),
}

/// A step whose output is not inspected.
pub open spec fn plain_step(args: Seq<Seq<char>>, label: Seq<char>) -> StepModel {
    StepModel { args, failure_label: label, required_output: Seq::empty(), missing_output_message: ""@ }
}

/// The document that the CRUD workflow stores.
pub open spec fn workflow_document() -> Seq<char> {
    "{\"title\": \"Workflow Test\", \"status\": \"active\", \"priority\": 1}"@
}

/// The CRUD workflow against `url`: store a document, read it back (it must show its
/// title), query by status, and delete it.
pub open spec fn crud_steps(url: Seq<char>) -> Seq<StepModel> {
    seq![
        plain_step(seq!["--url"@, url, "put"@, "workflow_test"@, "workflow_document"@, workflow_document()], "PUT failed"@),
        StepModel {
            args: seq!["--url"@, url, "get"@, "workflow_test"@, "workflow_document"@],
            failure_label: "GET failed"@,
            required_output: seq!["Workflow Test"@],
            missing_output_message: "GET did not return expected document"@,
        },
        plain_step(
            seq!["--url"@, url, "query"@, "workflow_test"@, "--filter"@, "{\"status\": \"active\"}"@],
            "QUERY failed"@,
        ),
        plain_step(seq!["--url"@, url, "delete"@, "workflow_test"@, "workflow_document"@, "--force"@], "DELETE failed"@),
    ]
}

/// The batch workflow against `url`: generating the basic template as JSON.
pub open spec fn batch_steps(url: Seq<char>) -> Seq<StepModel> {
    seq![
        plain_step(
            seq!["--url"@, url, "config-generate"@, "--template"@, "basic"@, "--format"@, "json"@],
            "Config generation failed"@,
        ),
    ]
}

/// The configuration workflow: the basic template as YAML must show the node and
/// storage sections.
pub open spec fn config_steps() -> Seq<StepModel> {
    seq![
        StepModel {
            args: seq!["config-generate"@, "--template"@, "basic"@, "--format"@, "yaml"@],
            failure_label: "Config generation failed"@,
            required_output: seq!["node:"@, "storage:"@],
            missing_output_message: "Generated config missing expected sections"@,
        },
    ]
}

fn step(args: Vec<String>, label: &str, required: &[&str], missing: &str) -> (s: WorkflowStep)
    ensures
        s@ == (StepModel {
            args: strings_view(args@),
            failure_label: label@,
            required_output: required@.map_values(|t: &str| t@),
            missing_output_message: missing@,
        }),
{
    WorkflowStep {
        args,
        failure_label: owned(label),
        required_output: owned_all(required),
        missing_output_message: owned(missing),
    }
}

fn with_url(url: &String, rest: &[&str]) -> (v: Vec<String>)
    ensures
        strings_view(v@) == seq!["--url"@, url@] + rest@.map_values(|t: &str| t@),
{
    let mut v: Vec<String> = Vec::new();
    v.push(owned("--url"));
    v.push(url.clone());
    let tail = owned_all(rest);
    let mut i: usize = 0;
    while i < tail.len()
        invariant
            i <= tail@.len(),
            strings_view(tail@) == rest@.map_values(|t: &str| t@),
            strings_view(v@) == seq!["--url"@, url@] + strings_view(tail@).take(i as int),
        decreases tail@.len() - i,
    {
        let ghost before = v@;
        v.push(tail[i].clone());
        i = i + 1;
        assert(strings_view(v@) =~= strings_view(before).push(tail@[i - 1]@));
        assert(strings_view(tail@).take(i as int) =~= strings_view(tail@).take((i - 1) as int).push(
            tail@[i - 1]@,
        ));
    }
    assert(strings_view(tail@).take(tail@.len() as int) =~= strings_view(tail@));
    v
}

/// The steps of a workflow as values.
pub open spec fn steps_view(steps: Seq<WorkflowStep>) -> Seq<StepModel> {
    steps.map_values(|s: WorkflowStep| s@)
}

impl CliTestRunner {
    /// The CRUD workflow against this runner's server.
    pub fn crud_workflow(&self) -> (steps: Vec<WorkflowStep>)
        ensures
            steps_view(steps@) == crud_steps(self.server_url@),
    {
        let put_tail: &[&str] = &["put", "workflow_test", "workflow_document", "{\"title\": \"Workflow Test\", \"status\": \"active\", \"priority\": 1}"];
        let get_tail: &[&str] = &["get", "workflow_test", "workflow_document"];
        let query_tail: &[&str] = &["query", "workflow_test", "--filter", "{\"status\": \"active\"}"];
        let delete_tail: &[&str] = &["delete", "workflow_test", "workflow_document", "--force"];
        let none: &[&str] = &[];
        let title: &[&str] = &["Workflow Test"];
        assert(none@.map_values(|t: &str| t@) =~= Seq::<Seq<char>>::empty());
        assert(title@.map_values(|t: &str| t@) =~= seq!["Workflow Test"@]);
        let s0 = step(with_url(&self.server_url, put_tail), "PUT failed", none, "");
        let s1 = step(with_url(&self.server_url, get_tail), "GET failed", title, "GET did not return expected document");
        let s2 = step(with_url(&self.server_url, query_tail), "QUERY failed", none, "");
        let s3 = step(with_url(&self.server_url, delete_tail), "DELETE failed", none, "");
        let ghost url = self.server_url@;
        assert(s0@.args =~= crud_steps(url)[0].args);
        assert(s1@.args =~= crud_steps(url)[1].args);
        assert(s2@.args =~= crud_steps(url)[2].args);
        assert(s3@.args =~= crud_steps(url)[3].args);
        let steps = vec![s0, s1, s2, s3];
        assert(steps_view(steps@) =~= crud_steps(url));
        steps
    }

    /// The batch workflow against this runner's server.
    pub fn batch_workflow(&self) -> (steps: Vec<WorkflowStep>)
        ensures
            steps_view(steps@) == batch_steps(self.server_url@),
    {
        let tail: &[&str] = &["config-generate", "--template", "basic", "--format", "json"];
        let none: &[&str] = &[];
        assert(none@.map_values(|t: &str| t@) =~= Seq::<Seq<char>>::empty());
        let s0 = step(with_url(&self.server_url, tail), "Config generation failed", none, "");
        assert(s0@.args =~= batch_steps(self.server_url@)[0].args);
        let steps = vec![s0];
        assert(steps_view(steps@) =~= batch_steps(self.server_url@));
        steps
    }

    /// The configuration workflow (it needs no server).
    pub fn config_workflow(&self) -> (steps: Vec<WorkflowStep>)
        ensures
            steps_view(steps@) == config_steps(),
    {
        let args: &[&str] = &["config-generate", "--template", "basic", "--format", "yaml"];
        let sections: &[&str] = &["node:", "storage:"];
        assert(args@.map_values(|t: &str| t@) =~= seq!["config-generate"@, "--template"@, "basic"@, "--format"@, "yaml"@]);
        assert(sections@.map_values(|t: &str| t@) =~= seq!["node:"@, "storage:"@]);
        let s0 = step(owned_all(args), "Config generation failed", sections, "Generated config missing expected sections");
        let steps = vec![s0];
        assert(steps_view(steps@) =~= config_steps());
        steps
    }
}

/// The verdict on one run of a step: the command must succeed, then its output must
/// hold every required text.
pub open spec fn step_verdict(s: StepModel, succeeded: bool, stdout: Seq<char>) -> Result<(), Seq<char>> {
    if !succeeded {
        Err(s.failure_label)
    } else if exists|i: int| 0 <= i < s.required_output.len() && !contains_seq(stdout, #[trigger] s.required_output[i]) {
        Err(s.missing_output_message)
    } else {
        Ok(())
    }
}

/// Judges one run of a workflow step from whether it succeeded and what it printed.
pub fn check_step(s: &WorkflowStep, succeeded: bool, stdout: &str) -> (r: Result<(), StepFailure>)
    ensures
        match step_verdict(s@, succeeded, stdout@) {
            Ok(()) => r is Ok,
            Err(msg) => match r {
                Err(StepFailure::Command(l)) => !succeeded && l@ == msg,
                Err(StepFailure::MissingOutput(m)) => succeeded && m@ == msg,
                Ok(()) => false,
            },
        },
{
    if !succeeded {
        return Err(StepFailure::Command(s.failure_label.clone()));
    }
    let mut i: usize = 0;
    while i < s.required_output.len()
        invariant
            succeeded,
            i <= s.required_output@.len(),
            forall|k: int| 0 <= k < i ==> contains_seq(stdout@, #[trigger] s@.required_output[k]),
        decreases s.required_output@.len() - i,
    {
        if !str_contains(stdout, s.required_output[i].as_str()) {
            assert(!contains_seq(stdout@, s@.required_output[i as int]));
            return Err(StepFailure::MissingOutput(s.missing_output_message.clone()));
        }
        i = i + 1;
    }
    Ok(())
}

/// The server the integration tests run against: the one given, or the local default.
pub fn server_url_or_default(url: Option<String>) -> (r: String)
    ensures
        r@ == match url {
            Some(u) => u@,
            None => "http://localhost:8080"@,
        },
{
    match url {
        Some(u) => u,
        None => owned("http://localhost:8080"),
    }
}

} // verus!

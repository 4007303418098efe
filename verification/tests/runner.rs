use algonds::common::{RunDetails, RunRequest, RunResponse, TestCase, TestCaseStatus};
use algonds::test_runner::remote_runner::{CompileReport, Progress, RemoteRunner};
use algonds::test_runner::runnable_test_case::{
    remove_whitespace, ExitCheck, ProcessReport, RunnableTestCase,
};
use algonds::test_runner::{command_from, has_no_word, parse_command, ParsedCommand};
use std::time::Duration;

fn case(id: usize, input: &str, output: &str) -> TestCase {
    TestCase {
        id,
        complexity: 7,
        input: input.to_string(),
        output: output.to_string(),
        is_stress_test: false,
    }
}

fn started(expected: &str) -> RunnableTestCase {
    let mut case = RunnableTestCase::new(
        3,
        42,
        "echo".to_string(),
        "x".to_string(),
        expected.to_string(),
    );
    assert!(case.start().is_some());
    case.spawned(Ok(()));
    case
}

fn exited(success: bool, stdout: &str, stderr: &str) -> ProcessReport {
    ProcessReport {
        elapsed: Duration::from_millis(12),
        exit: ExitCheck::Exited { success },
        stdout: Ok(stdout.to_string()),
        stderr: Ok(stderr.to_string()),
    }
}

fn error(message: &str) -> TestCaseStatus {
    TestCaseStatus::Error { err_msg: message.to_string() }
}

fn details(n: usize, compile: &str, run: &str) -> RunDetails {
    RunDetails {
        compile_script: compile.to_string(),
        run_script: run.to_string(),
        test_cases: (0..n).map(|id| case(id, "in", "out")).collect(),
    }
}

fn compiled() -> CompileReport {
    CompileReport::Exited { success: true, stderr: String::new() }
}

fn runner_with(n: usize) -> RemoteRunner {
    let mut runner = RemoteRunner::new();
    let responses = runner.setup_new_run(details(n, "true", "echo"), compiled());
    assert!(responses.is_empty());
    assert_eq!(runner.queued(), n);
    runner
}

#[test]
fn whitespace_is_removed() {
    assert_eq!(remove_whitespace("a b\tc\n"), "abc");
    assert_eq!(remove_whitespace(" \n\t"), "");
    assert_eq!(remove_whitespace(""), "");
    assert_eq!(remove_whitespace("abc"), "abc");
    assert_eq!(remove_whitespace("a\u{a0}b\u{3000}c"), "abc");
}

#[test]
fn command_is_split_like_a_shell_line() {
    let command = parse_command("python \"my solution.py\" --fast 'a b'").unwrap();
    assert_eq!(
        command,
        ParsedCommand {
            program: "python".to_string(),
            args: vec!["my solution.py".to_string(), "--fast".to_string(), "a b".to_string()],
        }
    );
    let alone = parse_command("make").unwrap();
    assert_eq!(alone, ParsedCommand { program: "make".to_string(), args: vec![] });
}

#[test]
fn empty_command_is_refused() {
    let message = "As of now, all compile/run command must noe be empty".to_string();
    assert_eq!(parse_command(""), Err(message.clone()));
    assert_eq!(parse_command("   "), Err(message.clone()));
    assert_eq!(command_from("x", Some(vec![])), Err(message));
}

#[test]
fn malformed_command_is_refused() {
    let message = "Failed to parse command:\"{command}\"".to_string();
    assert_eq!(parse_command("echo \"unbalanced"), Err(message.clone()));
    assert_eq!(command_from("x", None), Err(message));
}

#[test]
fn command_from_words_takes_first_as_program() {
    let words = vec!["a".to_string(), "b".to_string(), "c".to_string()];
    assert_eq!(
        command_from("a b c", Some(words)),
        Ok(ParsedCommand {
            program: "a".to_string(),
            args: vec!["b".to_string(), "c".to_string()]
        })
    );
}

#[test]
fn output_equal_up_to_whitespace_passes() {
    let status = started("123").get_results(Some(exited(true, "1 2\n3", "")));
    assert_eq!(status, TestCaseStatus::Pass { time: Duration::from_millis(12), complexity: 42 });
}

#[test]
fn different_output_fails() {
    let status = started("123").get_results(Some(exited(true, "1 2 4", "")));
    assert_eq!(
        status,
        TestCaseStatus::Fail {
            expected: "123".to_string(),
            actual: "1 2 4".to_string(),
            time: Duration::from_millis(12),
            complexity: 42,
        }
    );
}

#[test]
fn failed_exit_gives_stderr() {
    let status = started("123").get_results(Some(exited(false, "123", "segfault")));
    assert_eq!(status, error("segfault"));
}

#[test]
fn unreadable_streams_are_named() {
    let mut report = exited(true, "", "");
    report.stdout = Err("gone".to_string());
    assert_eq!(started("1").get_results(Some(report)), error("gone(while cheching stdout)"));
    let mut report = exited(false, "", "");
    report.stderr = Err("gone".to_string());
    assert_eq!(started("1").get_results(Some(report)), error("gone(while checking stderr)"));
}

#[test]
fn results_without_a_finished_process_are_errors() {
    let fresh = RunnableTestCase::new(0, 1, "echo".into(), "x".into(), "x".into());
    assert_eq!(fresh.get_results(None), error("Process has not even started."));
    let fresh = RunnableTestCase::new(0, 1, "echo".into(), "x".into(), "x".into());
    assert_eq!(
        fresh.get_results(Some(exited(true, "x", ""))),
        error("Process has not even started.")
    );
    assert_eq!(started("1").get_results(None), error("Process has not even started."));
    let mut report = exited(true, "1", "");
    report.exit = ExitCheck::CheckFailed;
    assert_eq!(started("1").get_results(Some(report)), error("Error checking exit status."));
    let mut report = exited(true, "1", "");
    report.exit = ExitCheck::StillRunning;
    assert_eq!(
        started("1").get_results(Some(report)),
        error("Process has not finished but shuld have")
    );
}

#[test]
fn start_builds_command_from_template_and_input() {
    let mut case = RunnableTestCase::new(
        0,
        1,
        "python sol.py".to_string(),
        "abc \"d e\"".to_string(),
        String::new(),
    );
    let command = case.start().unwrap();
    assert_eq!(command.program, "python");
    assert_eq!(command.args, vec!["sol.py".to_string(), "abc".to_string(), "d e".to_string()]);
    assert!(!case.has_started());
    assert!(!case.has_failed());
    assert!(!case.has_finished(ExitCheck::StillRunning));
    assert!(!case.has_finished(ExitCheck::Exited { success: true }));
    case.spawned(Ok(()));
    assert!(case.has_started());
    assert_eq!(case.id(), 0);
    assert!(!case.has_finished(ExitCheck::StillRunning));
    assert!(case.has_finished(ExitCheck::Exited { success: false }));
    assert!(case.has_finished(ExitCheck::CheckFailed));
}

#[test]
fn failed_start_is_kept_for_the_result() {
    let mut case = RunnableTestCase::new(0, 1, String::new(), "x".into(), "x".into());
    assert!(case.start().is_none());
    assert!(case.has_failed());
    assert!(!case.has_started());
    assert!(case.has_finished(ExitCheck::StillRunning));
    assert_eq!(
        case.get_results(None),
        error("As of now, all compile/run command must noe be empty(While handling the test case)")
    );

    let mut case = RunnableTestCase::new(0, 1, "echo '".into(), "x".into(), "x".into());
    assert!(case.start().is_none());
    assert_eq!(
        case.get_results(None),
        error("Failed to parse command:\"{command}\"(While handling the test case)")
    );

    let mut case = RunnableTestCase::new(0, 1, "nowhere".into(), "x".into(), "x".into());
    assert!(case.start().is_some());
    case.spawned(Err("No such file".to_string()));
    assert!(case.has_failed());
    assert_eq!(case.get_results(None), error("No such file(While handling the test case)"));
}

#[test]
fn new_runner_is_idle() {
    let mut runner = RemoteRunner::new();
    assert_eq!(runner.queued(), 0);
    assert!(runner.is_wf());
    assert!(!runner.is_running());
    assert_eq!(runner.continue_running_last_request(), Progress::Idle);
    assert_eq!(runner.spawn_finished(Ok(())), None);
    assert_eq!(runner.process_polled(exited(true, "", "")), None);
    assert!(runner.abort_curr_run().is_empty());
}

#[test]
fn cases_run_one_at_a_time_in_order() {
    let mut runner = runner_with(2);
    match runner.continue_running_last_request() {
        Progress::Spawn { id, command } => {
            assert_eq!(id, 0);
            assert_eq!(command.program, "echo");
            assert_eq!(command.args, vec!["in".to_string()]);
        }
        other => panic!("unexpected step {:?}", other),
    }
    assert!(!runner.is_running());
    assert_eq!(
        runner.spawn_finished(Ok(())),
        Some(RunResponse { id: 0, status: TestCaseStatus::Running })
    );
    assert!(runner.is_running());
    assert!(runner.is_wf());
    assert_eq!(runner.continue_running_last_request(), Progress::Poll { id: 0 });
    assert_eq!(runner.spawn_finished(Ok(())), None);
    let mut waiting = exited(true, "", "");
    waiting.exit = ExitCheck::StillRunning;
    assert_eq!(runner.process_polled(waiting), None);
    assert_eq!(runner.queued(), 2);
    assert_eq!(
        runner.process_polled(exited(true, " out\n", "")),
        Some(RunResponse {
            id: 0,
            status: TestCaseStatus::Pass { time: Duration::from_millis(12), complexity: 7 }
        })
    );
    assert_eq!(runner.queued(), 1);
    assert!(!runner.is_running());
    assert_eq!(runner.process_polled(exited(true, "out", "")), None);
    match runner.continue_running_last_request() {
        Progress::Spawn { id, .. } => assert_eq!(id, 1),
        other => panic!("unexpected step {:?}", other),
    }
    assert_eq!(
        runner.spawn_finished(Err("denied".to_string())),
        Some(RunResponse { id: 1, status: error("denied(While handling the test case)") })
    );
    assert_eq!(runner.queued(), 0);
    assert_eq!(runner.continue_running_last_request(), Progress::Idle);
}

#[test]
fn case_that_cannot_start_is_reported_and_removed() {
    let mut runner = RemoteRunner::new();
    runner.setup_new_run(details(2, "true", ""), compiled());
    assert_eq!(
        runner.continue_running_last_request(),
        Progress::Report(RunResponse {
            id: 0,
            status: error(
                "As of now, all compile/run command must noe be empty(While handling the test case)"
            ),
        })
    );
    assert_eq!(runner.queued(), 1);
}

#[test]
fn stop_cancels_exactly_the_queued_cases() {
    let mut runner = runner_with(5);
    for id in 0..2 {
        assert!(matches!(runner.continue_running_last_request(), Progress::Spawn { .. }));
        assert_eq!(
            runner.spawn_finished(Ok(())),
            Some(RunResponse { id, status: TestCaseStatus::Running })
        );
        assert!(runner.process_polled(exited(true, "out", "")).is_some());
    }
    let handled = runner.try_handle_next_request(RunRequest::PleaseStop);
    assert!(handled.compile.is_none());
    assert_eq!(
        handled.responses,
        vec![
            RunResponse { id: 2, status: TestCaseStatus::Cancelled },
            RunResponse { id: 3, status: TestCaseStatus::Cancelled },
            RunResponse { id: 4, status: TestCaseStatus::Cancelled },
        ]
    );
    assert_eq!(runner.queued(), 0);
}

#[test]
fn failed_compilation_gives_one_suite_error() {
    let mut runner = RemoteRunner::new();
    let handled = runner.try_handle_next_request(RunRequest::PleaseRun(details(3, "gcc x.c", "./a.out")));
    assert!(handled.responses.is_empty());
    let job = handled.compile.unwrap();
    assert_eq!(job.command.program, "gcc");
    assert_eq!(job.command.args, vec!["x.c".to_string()]);
    let responses = runner.setup_new_run(
        job.details,
        CompileReport::Exited { success: false, stderr: "x.c:1: error".to_string() },
    );
    assert_eq!(responses, vec![RunResponse { id: 0, status: error("x.c:1: error") }]);
    assert_eq!(runner.queued(), 0);
    assert_eq!(runner.continue_running_last_request(), Progress::Idle);

    let responses = runner.setup_new_run(
        details(3, "gcc x.c", "./a.out"),
        CompileReport::SpawnFailed { message: "gcc not found".to_string() },
    );
    assert_eq!(responses, vec![RunResponse { id: 0, status: error("gcc not found") }]);
    assert_eq!(runner.queued(), 0);
}

#[test]
fn unparsable_compile_command_fails_the_suite_at_once() {
    let mut runner = runner_with(2);
    let handled = runner.try_handle_next_request(RunRequest::PleaseRun(details(3, "", "./a.out")));
    assert!(handled.compile.is_none());
    assert_eq!(
        handled.responses,
        vec![
            RunResponse { id: 0, status: TestCaseStatus::Cancelled },
            RunResponse { id: 1, status: TestCaseStatus::Cancelled },
            RunResponse {
                id: 0,
                status: error("As of now, all compile/run command must noe be empty")
            },
        ]
    );
    assert_eq!(runner.queued(), 0);
}

#[test]
fn new_run_replaces_the_queue_with_ids_as_given() {
    let mut runner = runner_with(2);
    let mut next = details(0, "true", "run");
    next.test_cases = vec![case(4, "a", "b"), case(9, "c", "d")];
    let responses = runner.setup_new_run(next, compiled());
    assert_eq!(
        responses,
        vec![
            RunResponse { id: 0, status: TestCaseStatus::Cancelled },
            RunResponse { id: 1, status: TestCaseStatus::Cancelled },
        ]
    );
    assert_eq!(runner.queued(), 2);
    match runner.continue_running_last_request() {
        Progress::Spawn { id, command } => {
            assert_eq!(id, 4);
            assert_eq!(command.program, "run");
            assert_eq!(command.args, vec!["a".to_string()]);
        }
        other => panic!("unexpected step {:?}", other),
    }
}

fn running(statuses: &[TestCaseStatus]) -> usize {
    statuses.iter().filter(|status| **status == TestCaseStatus::Running).count()
}

#[test]
fn at_most_one_case_runs_during_a_whole_run() {
    let mut suite = algonds::test_suite::TestSuite::new();
    let problem = algonds::common::Problem {
        name: "Two sum".to_string(),
        statement: String::new(),
        test_cases: (0..4).map(|id| case(id, "in", "out")).collect(),
        difficulty: algonds::common::Difficulty::Hard,
    };
    suite.set_test_cases_from(&problem);
    let request = suite.run("true".to_string(), "echo".to_string());
    let mut runner = RemoteRunner::new();
    let mut history: Vec<Vec<TestCaseStatus>> = vec![suite.get_test_cases()];

    let handled = runner.try_handle_next_request(request);
    assert!(handled.responses.is_empty());
    let job = handled.compile.unwrap();
    assert!(runner.setup_new_run(job.details, compiled()).is_empty());

    for round in 0..3 {
        assert!(matches!(runner.continue_running_last_request(), Progress::Spawn { .. }));
        let outcome = if round == 1 { Err("denied".to_string()) } else { Ok(()) };
        suite.receive(runner.spawn_finished(outcome).unwrap());
        history.push(suite.get_test_cases());
        if round != 1 {
            assert_eq!(runner.continue_running_last_request(), Progress::Poll { id: round });
            let output = if round == 0 { "out" } else { "other" };
            suite.receive(runner.process_polled(exited(true, output, "")).unwrap());
            history.push(suite.get_test_cases());
        }
    }
    for response in runner.try_handle_next_request(RunRequest::PleaseStop).responses {
        suite.receive(response);
    }
    history.push(suite.get_test_cases());

    let not_run = TestCaseStatus::NotRun;
    let pass = TestCaseStatus::Pass { time: Duration::from_millis(12), complexity: 7 };
    let denied = error("denied(While handling the test case)");
    let fail = TestCaseStatus::Fail {
        expected: "out".to_string(),
        actual: "other".to_string(),
        time: Duration::from_millis(12),
        complexity: 7,
    };
    let expected_history = vec![
        vec![not_run.clone(), not_run.clone(), not_run.clone(), not_run.clone()],
        vec![TestCaseStatus::Running, not_run.clone(), not_run.clone(), not_run.clone()],
        vec![pass.clone(), not_run.clone(), not_run.clone(), not_run.clone()],
        vec![pass.clone(), denied.clone(), not_run.clone(), not_run.clone()],
        vec![pass.clone(), denied.clone(), TestCaseStatus::Running, not_run.clone()],
        vec![pass.clone(), denied.clone(), fail.clone(), not_run.clone()],
        vec![pass, denied, fail, TestCaseStatus::Cancelled],
    ];
    assert_eq!(history, expected_history);
    for statuses in &history {
        assert_eq!(statuses.len(), 4);
        assert!(running(statuses) <= 1);
    }
}

#[test]
fn classification_follows_the_comparison_it_is_given() {
    assert_eq!(
        started("a").classified(Some(exited(true, "b", "")), true),
        TestCaseStatus::Pass { time: Duration::from_millis(12), complexity: 42 }
    );
    assert_eq!(
        started("a").classified(Some(exited(true, "a", "")), false),
        TestCaseStatus::Fail {
            expected: "a".to_string(),
            actual: "a".to_string(),
            time: Duration::from_millis(12),
            complexity: 42,
        }
    );
    assert_eq!(
        started("a").classified(Some(exited(false, "a", "bad")), true),
        error("bad")
    );
    assert_eq!(started("a").classified(None, true), error("Process has not even started."));
}

#[test]
fn template_without_a_word_is_refused() {
    let message =
        "As of now, all compile/run command must noe be empty(While handling the test case)";
    for template in ["", " ", " \t\n ", "# only a remark"] {
        assert!(has_no_word(template));
        let mut case =
            RunnableTestCase::new(0, 1, template.to_string(), "echo hi".into(), "hi".into());
        assert!(case.start().is_none());
        assert!(case.has_failed());
        assert_eq!(case.get_results(None), error(message));
    }
    assert!(!has_no_word("echo"));
    assert!(!has_no_word(" echo "));
    assert!(!has_no_word("echo '"));
    assert!(!has_no_word("''"));
    let mut runner = RemoteRunner::new();
    runner.setup_new_run(details(1, "true", " "), compiled());
    assert_eq!(
        runner.continue_running_last_request(),
        Progress::Report(RunResponse { id: 0, status: error(message) })
    );
}

#[test]
fn ascii_whitespace_is_removed_and_nothing_else_below_u80() {
    assert_eq!(remove_whitespace("a \t\n\u{b}\u{c}\rb"), "ab");
    let kept = "\u{0}\u{8}\u{e}\u{1c}\u{1f}!0Az~\u{7f}";
    assert_eq!(remove_whitespace(kept), kept);
    let mut all = String::new();
    for code in 0u8..0x80 {
        all.push(code as char);
    }
    let expected: String =
        all.chars().filter(|c| !matches!(*c, ' ' | '\t' | '\n' | '\u{b}' | '\u{c}' | '\r')).collect();
    assert_eq!(remove_whitespace(&all), expected);
    assert_eq!(expected.len(), 0x80 - 6);
}

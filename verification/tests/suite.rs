use algonds::arguments::{Action, AppArgs};
use algonds::common::{
    clone_cases, Difficulty, InputField, Menu, Problem, ProblemDataTab, RunDetails, RunRequest,
    RunResponse, TestCase, TestCaseStatus,
};
use algonds::controller::AfterEvent;
use algonds::data::{
    generate_stress_tests_for, generate_stress_tests_from, has_stress_tests_for, repeat,
    stress_tests_for_hello_world, stress_tests_for_lcs,
};
use algonds::input_handler::InputHandler;
use algonds::settings::{is_web_link, Settings};
use algonds::test_runner::code_runner::CodeRunner;
use algonds::test_suite::TestSuite;
use std::time::Duration;

fn declared(id: usize) -> TestCase {
    TestCase {
        id,
        complexity: 1,
        input: format!("in{}", id),
        output: format!("out{}", id),
        is_stress_test: false,
    }
}

fn problem(name: &str, n: usize) -> Problem {
    Problem {
        name: name.to_string(),
        statement: "statement".to_string(),
        test_cases: (0..n).map(declared).collect(),
        difficulty: Difficulty::Easy,
    }
}

fn response(id: usize, status: TestCaseStatus) -> RunResponse {
    RunResponse { id, status }
}

fn pass() -> TestCaseStatus {
    TestCaseStatus::Pass { time: Duration::from_secs(1), complexity: 1 }
}

fn dead_worker() -> Vec<RunResponse> {
    vec![response(
        0,
        TestCaseStatus::Error { err_msg: "Thread which runs the test cases has died".to_string() },
    )]
}

#[test]
fn repeat_writes_the_text_n_times() {
    assert_eq!(repeat("ab", 3), "ababab");
    assert_eq!(repeat("ab", 0), "");
    assert_eq!(repeat("", 5), "");
}

#[test]
fn stress_tests_for_known_problems() {
    let hello = stress_tests_for_hello_world(1);
    assert_eq!(hello.len(), 3);
    assert_eq!(
        hello[0],
        TestCase {
            id: 2,
            complexity: 100,
            input: "a".repeat(100),
            output: "Hello, world!".to_string(),
            is_stress_test: true,
        }
    );
    assert_eq!(hello[1].id, 3);
    assert_eq!(hello[1].complexity, 1000);
    assert_eq!(hello[1].input, "a".repeat(1000));
    assert_eq!(hello[2].id, 4);
    assert_eq!(hello[2].complexity, 10000);
    assert_eq!(hello[2].input.len(), 10000);

    let lcs = stress_tests_for_lcs(10);
    assert_eq!(lcs.len(), 3);
    assert_eq!(
        lcs[0],
        TestCase {
            id: 11,
            complexity: 600,
            input: "abcde".repeat(100) + " " + &"abcdez".repeat(100),
            output: "abcde".to_string(),
            is_stress_test: true,
        }
    );
    assert_eq!(lcs[1].id, 12);
    assert_eq!(lcs[1].complexity, 6000);
    assert_eq!(lcs[1].input, "abcde".repeat(1000) + " " + &"abcdez".repeat(1000));
    assert_eq!(lcs[1].output, "abcde".repeat(230));
    assert_eq!(lcs[2].id, 13);
    assert_eq!(lcs[2].complexity, 60000);
    assert_eq!(lcs[2].input.len(), 110001);
    assert_eq!(lcs[2].output, "abcde");
}

#[test]
fn stress_tests_are_chosen_by_name() {
    let hello = generate_stress_tests_for(&"Print \"Hello, world!\" (tutorial)".to_string(), 0);
    assert_eq!(hello, stress_tests_for_hello_world(0));
    let lcs = generate_stress_tests_for(&"Longest common substring".to_string(), 0);
    assert_eq!(lcs, stress_tests_for_lcs(0));
    assert!(generate_stress_tests_for(&"Two sum".to_string(), 0).is_empty());
    assert!(generate_stress_tests_for(&String::new(), 5).is_empty());
    assert!(generate_stress_tests_for(&"Two sum".to_string(), usize::MAX).is_empty());
    assert!(has_stress_tests_for(&"Longest common substring".to_string()));
    assert!(has_stress_tests_for(&"Print \"Hello, world!\" (tutorial)".to_string()));
    assert!(!has_stress_tests_for(&"longest common substring".to_string()));
    assert!(!has_stress_tests_for(&String::new()));
}

#[test]
fn stress_ids_continue_after_declared_cases() {
    let mut suite = TestSuite::new();
    let problem = problem("Longest common substring", 2);
    suite.set_test_cases_from(&problem);
    assert_eq!(suite.number_of_tests(), 5);
    let RunRequest::PleaseRun(details) = suite.run("c".into(), "r".into()) else {
        panic!("a run was expected");
    };
    let ids: Vec<usize> = details.test_cases.iter().map(|case| case.id).collect();
    assert_eq!(ids, vec![0, 1, 2, 3, 4]);
    let flags: Vec<bool> = details.test_cases.iter().map(|case| case.is_stress_test).collect();
    assert_eq!(flags, vec![false, false, true, true, true]);
    assert_eq!(details.test_cases[0], declared(0));
    assert_eq!(details.test_cases[1], declared(1));
    assert_eq!(details.test_cases[2..], stress_tests_for_lcs(1)[..]);
}

#[test]
fn loading_a_problem_resets_statuses() {
    let mut suite = TestSuite::new();
    assert!(suite.is_wf());
    assert_eq!(suite.number_of_tests(), 0);
    assert_eq!(suite.get_test_cases(), vec![]);
    suite.set_test_cases_from(&problem("Two sum", 3));
    assert_eq!(suite.number_of_tests(), 3);
    assert!(suite.is_wf());
    assert_eq!(suite.get_test_cases(), vec![TestCaseStatus::NotRun; 3]);
    suite.receive(response(1, pass()));
    assert_eq!(suite.get_nth_test_case(1), pass());
    suite.set_test_cases_from(&problem("Print \"Hello, world!\" (tutorial)", 0));
    assert_eq!(suite.number_of_tests(), 3);
    assert_eq!(suite.get_test_cases(), vec![TestCaseStatus::NotRun; 3]);
}

#[test]
fn updates_overwrite_statuses_in_order() {
    let mut suite = TestSuite::new();
    suite.set_test_cases_from(&problem("Two sum", 3));
    assert!(!suite.update_test_cases());
    suite.receive(response(0, TestCaseStatus::Running));
    suite.receive(response(0, pass()));
    suite.receive(response(1, TestCaseStatus::Running));
    assert!(suite.can_update());
    assert!(suite.update_test_cases());
    assert!(!suite.update_test_cases());
    assert_eq!(
        suite.get_test_cases(),
        vec![pass(), TestCaseStatus::Running, TestCaseStatus::NotRun]
    );
    assert_eq!(suite.get_nth_test_case(2), TestCaseStatus::NotRun);
    suite.receive(response(2, TestCaseStatus::Cancelled));
    assert_eq!(suite.get_nth_test_case(2), TestCaseStatus::Cancelled);
}

#[test]
fn out_of_range_update_is_detected() {
    let mut suite = TestSuite::new();
    suite.set_test_cases_from(&problem("Two sum", 2));
    suite.receive(response(1, pass()));
    assert!(suite.can_update());
    suite.receive(response(2, pass()));
    assert!(!suite.can_update());
    let mut empty = TestSuite::new();
    assert!(empty.can_update());
    empty.worker_died();
    assert!(!empty.can_update());
}

#[test]
fn changes_are_reported_once() {
    let mut suite = TestSuite::new();
    suite.set_test_cases_from(&problem("Two sum", 2));
    assert!(!suite.check_for_changes());
    suite.receive(response(0, TestCaseStatus::Running));
    assert_eq!(suite.get_test_cases()[0], TestCaseStatus::Running);
    assert!(suite.check_for_changes());
    assert!(!suite.check_for_changes());
    suite.receive(response(0, pass()));
    assert!(suite.check_for_changes());
    assert!(!suite.check_for_changes());
}

#[test]
fn rerun_resets_every_status() {
    let mut suite = TestSuite::new();
    suite.set_test_cases_from(&problem("Two sum", 3));
    suite.receive(response(0, pass()));
    suite.receive(response(1, TestCaseStatus::Error { err_msg: "boom".into() }));
    suite.receive(response(2, TestCaseStatus::Cancelled));
    assert_eq!(suite.get_test_cases().len(), 3);
    let request = suite.run("make".to_string(), "./solution".to_string());
    assert_eq!(
        request,
        RunRequest::PleaseRun(RunDetails {
            compile_script: "make".to_string(),
            run_script: "./solution".to_string(),
            test_cases: vec![declared(0), declared(1), declared(2)],
        })
    );
    assert_eq!(suite.get_test_cases(), vec![TestCaseStatus::NotRun; 3]);
    suite.receive(response(0, TestCaseStatus::Running));
    assert_eq!(
        suite.get_test_cases(),
        vec![TestCaseStatus::Running, TestCaseStatus::NotRun, TestCaseStatus::NotRun]
    );
    assert_eq!(suite.stop(), RunRequest::PleaseStop);
}

#[test]
fn cancelled_cases_leave_finished_ones_untouched() {
    let mut suite = TestSuite::new();
    suite.set_test_cases_from(&problem("Two sum", 5));
    suite.run("c".into(), "r".into());
    suite.receive(response(0, TestCaseStatus::Running));
    suite.receive(response(0, pass()));
    suite.receive(response(1, TestCaseStatus::Running));
    suite.receive(response(1, TestCaseStatus::Error { err_msg: "crash".into() }));
    for id in 2..5 {
        suite.receive(response(id, TestCaseStatus::Cancelled));
    }
    assert_eq!(
        suite.get_test_cases(),
        vec![
            pass(),
            TestCaseStatus::Error { err_msg: "crash".into() },
            TestCaseStatus::Cancelled,
            TestCaseStatus::Cancelled,
            TestCaseStatus::Cancelled,
        ]
    );
}

#[test]
fn second_drain_is_empty() {
    let mut runner = CodeRunner::default();
    assert!(runner.worker_alive());
    assert!(runner.get_updates().is_empty());
    runner.receive(response(1, TestCaseStatus::Running));
    runner.receive(response(1, pass()));
    assert!(runner.updates_below(2));
    assert!(!runner.updates_below(1));
    assert_eq!(
        runner.get_updates(),
        vec![response(1, TestCaseStatus::Running), response(1, pass())]
    );
    assert!(runner.get_updates().is_empty());
    assert!(runner.get_updates().is_empty());
}

#[test]
fn dead_worker_is_reported_on_every_drain() {
    let mut runner = CodeRunner::default();
    runner.receive(response(1, pass()));
    runner.worker_died();
    assert!(!runner.worker_alive());
    assert_eq!(runner.get_updates(), dead_worker());
    assert_eq!(runner.get_updates(), dead_worker());
    assert!(runner.updates_below(1));
    assert!(!runner.updates_below(0));

    let mut suite = TestSuite::new();
    suite.set_test_cases_from(&problem("Two sum", 2));
    suite.worker_died();
    assert!(suite.check_for_changes());
    assert!(suite.check_for_changes());
    assert_eq!(suite.get_test_cases()[0], dead_worker()[0].status);
    assert_eq!(suite.get_test_cases()[1], TestCaseStatus::NotRun);
}

#[test]
fn requests_carry_what_was_submitted() {
    let runner = CodeRunner::default();
    let request = runner.please_run(vec![declared(3)], "c".to_string(), "r".to_string());
    assert_eq!(
        request,
        RunRequest::PleaseRun(RunDetails {
            compile_script: "c".to_string(),
            run_script: "r".to_string(),
            test_cases: vec![declared(3)],
        })
    );
    assert_eq!(runner.please_stop(), RunRequest::PleaseStop);
    assert_eq!(request.clone(), request);
}

#[test]
fn copies_are_equal() {
    let cases = vec![declared(0), declared(1)];
    assert_eq!(clone_cases(&cases), cases);
    let problem = problem("Two sum", 2);
    assert_eq!(problem.clone(), problem);
    let failed = TestCaseStatus::Fail {
        expected: "a".into(),
        actual: "b".into(),
        time: Duration::from_millis(3),
        complexity: 9,
    };
    assert_eq!(failed.clone(), failed);
    assert_eq!(response(4, failed.clone()).clone(), response(4, failed));
}

#[test]
fn defaults() {
    assert_eq!(TestCaseStatus::default(), TestCaseStatus::NotRun);
    assert_eq!(Menu::default(), Menu::Select);
    assert_eq!(ProblemDataTab::default(), ProblemDataTab::Commands);
    assert_eq!(AfterEvent::default(), AfterEvent::DoRefresh);
    assert!(AfterEvent::Quit.is_quit());
    assert!(!AfterEvent::DoRefresh.is_quit());
    assert!(!AfterEvent::NoRefresh.is_quit());
}

#[test]
fn input_is_edited_character_by_character() {
    let mut handler = InputHandler::default();
    assert!(!handler.is_in_input_mode());
    assert_eq!(handler.current_field(), None);
    assert_eq!(handler.curr_input(), "");
    handler.edit_field("gcc".to_string(), InputField::CompileCommand);
    assert!(handler.is_in_input_mode());
    assert_eq!(handler.current_field(), Some(InputField::CompileCommand));
    handler.add(' ');
    handler.add('x');
    assert_eq!(handler.curr_input(), "gcc x");
    handler.pop();
    handler.pop();
    assert_eq!(handler.curr_input(), "gcc");
    handler.pop();
    handler.pop();
    handler.pop();
    handler.pop();
    assert_eq!(handler.curr_input(), "");
    handler.add('m');
    assert_eq!(handler.finish(), "m");
    assert!(!handler.is_in_input_mode());
    assert_eq!(handler.curr_input(), "");
    handler.edit_field("run".to_string(), InputField::RunCommand);
    assert_eq!(handler.current_field(), Some(InputField::RunCommand));
    assert_eq!(handler.finish(), "run");
}

#[test]
fn web_links_begin_with_http() {
    assert!(is_web_link("http://example.org/db.yaml"));
    assert!(is_web_link("https://example.org/db.yaml"));
    assert!(is_web_link("http"));
    assert!(!is_web_link("htt"));
    assert!(!is_web_link(""));
    assert!(!is_web_link("/home/me/http"));
    assert!(!is_web_link("Http://example.org"));
}

#[test]
fn settings_follow_the_arguments() {
    let default = Settings::default();
    assert_eq!(
        default,
        Settings {
            db_path: "https://raw.githubusercontent.com/MaciejWas/algonds/main/src/data/db.yaml"
                .to_string(),
            compilation_step: "echo hi there".to_string(),
            run_step: "echo hi there".to_string(),
            pretty: true,
        }
    );
    assert_eq!(default.clone(), default);
    let mut args = AppArgs {
        sub: Action::Run,
        settings: None,
        disable_unicode: false,
        db_path: None,
        solution_path: None,
        compilation_step: None,
        run_step: None,
    };
    assert_eq!(Settings::from_args(&args), default);
    args.disable_unicode = true;
    args.db_path = Some("db.yaml".to_string());
    args.run_step = Some("python sol.py".to_string());
    assert_eq!(
        Settings::from_args(&args),
        Settings {
            db_path: "db.yaml".to_string(),
            compilation_step: "echo hi there".to_string(),
            run_step: "python sol.py".to_string(),
            pretty: false,
        }
    );
    args.compilation_step = Some("make".to_string());
    assert_eq!(Settings::from_args(&args).compilation_step, "make");
}

#[test]
fn stress_ids_start_at_zero_without_declared_cases() {
    let mut suite = TestSuite::new();
    for name in ["Longest common substring", "Print \"Hello, world!\" (tutorial)"] {
        suite.set_test_cases_from(&problem(name, 0));
        assert_eq!(suite.number_of_tests(), 3);
        assert!(suite.is_wf());
        let RunRequest::PleaseRun(details) = suite.run("c".into(), "r".into()) else {
            panic!("a run was expected");
        };
        let ids: Vec<usize> = details.test_cases.iter().map(|case| case.id).collect();
        assert_eq!(ids, vec![0, 1, 2]);
        assert!(details.test_cases.iter().all(|case| case.is_stress_test));
        for id in 0..3 {
            suite.receive(response(id, pass()));
        }
        assert!(suite.can_update());
        assert_eq!(suite.get_test_cases(), vec![pass(), pass(), pass()]);
    }
}

#[test]
fn loaded_ids_are_indices_where_declared_ids_are() {
    for declared in 0..4 {
        for name in ["Longest common substring", "Two sum"] {
            let mut suite = TestSuite::new();
            suite.set_test_cases_from(&problem(name, declared));
            let RunRequest::PleaseRun(details) = suite.run("c".into(), "r".into()) else {
                panic!("a run was expected");
            };
            let ids: Vec<usize> = details.test_cases.iter().map(|case| case.id).collect();
            let expected: Vec<usize> = (0..suite.number_of_tests()).collect();
            assert_eq!(ids, expected);
        }
    }
}

#[test]
fn stress_tests_from_a_first_id() {
    let name = "Longest common substring".to_string();
    let from_zero = generate_stress_tests_from(&name, 0);
    assert_eq!(from_zero.iter().map(|case| case.id).collect::<Vec<usize>>(), vec![0, 1, 2]);
    assert_eq!(generate_stress_tests_from(&name, 6), generate_stress_tests_for(&name, 5));
    assert_eq!(generate_stress_tests_from(&name, 6), stress_tests_for_lcs(5));
    let last = generate_stress_tests_from(&name, usize::MAX - 2);
    assert_eq!(last[2].id, usize::MAX);
    assert!(generate_stress_tests_from(&"Two sum".to_string(), usize::MAX).is_empty());
    let hello = "Print \"Hello, world!\" (tutorial)".to_string();
    assert_eq!(generate_stress_tests_from(&hello, 1), stress_tests_for_hello_world(0));
}

//! One test case on the worker's side: what it is started with, whether it
//! was started, and how its finished process is classified.

use crate::common::{StatusModel, TestCaseStatus};
use crate::test_runner::{
    command_from_words, empty_command_message, has_no_word, holds_no_word, parse_command,
    shlex_split, CommandModel, ParsedCommand,
};
use crate::text::{char_is_whitespace, is_whitespace, push_char};
use std::time::Duration;
use vstd::prelude::*;
use vstd::std_specs::iter::IteratorSpec;
use vstd::string::*;

verus! {

/// The test that keeps the characters that are not whitespace.
pub open spec fn not_whitespace() -> spec_fn(char) -> bool {
    |c: char| !char_is_whitespace(c)
}

/// A text without its whitespace characters.
pub open spec fn without_whitespace(text: Seq<char>) -> Seq<char> {
    text.filter(not_whitespace())
}

/// Whitespace does not count: a text with a whitespace character put in at
/// any place is, without its whitespace, the text it was.
pub proof fn lemma_whitespace_is_ignored(before: Seq<char>, c: char, after: Seq<char>)
    requires
        char_is_whitespace(c),
    ensures
        without_whitespace(before.push(c) + after) == without_whitespace(before + after),
{
    reveal(Seq::filter);
    assert(before.push(c).drop_last() =~= before);
    Seq::filter_distributes_over_add(before.push(c), after, not_whitespace());
    Seq::filter_distributes_over_add(before, after, not_whitespace());
}

/// Removes every whitespace character from a text.
pub fn remove_whitespace(s: &str) -> (stripped: String)
    ensures
        stripped@ == without_whitespace(s@),
{
    broadcast use vstd::string::axiom_spec_iter, vstd::string::next_postcondition;

    let mut chars = s.chars();
    let mut stripped = String::new();
    let ghost mut seen: Seq<char> = Seq::empty();
    proof {
        reveal(Seq::filter);
        assert(seen + chars.remaining() =~= s@);
    }
    loop
        invariant
            seen + chars.remaining() == s@,
            stripped@ == without_whitespace(seen),
            chars.obeys_prophetic_iter_laws(),
            chars.decrease() is Some,
        ensures
            seen == s@,
        decreases chars.decrease()->0,
    {
        let ghost before = chars.remaining();
        match chars.next() {
            Some(c) => {
                proof {
                    reveal(Seq::filter);
                    assert(seen.push(c).drop_last() =~= seen);
                    assert(seen.push(c) + chars.remaining() =~= seen + before);
                    seen = seen.push(c);
                }
                if !is_whitespace(c) {
                    push_char(&mut stripped, c);
                }
            },
            None => {
                assert(seen + before =~= seen);
                break ;
            },
        }
    }
    stripped
}

/// What polling a process for its exit gave.
#[derive(Debug, Clone, Copy, PartialEq, Eq, Structural)]
pub enum ExitCheck {
    /// The exit status could not be read.
    CheckFailed,
    /// The process has not exited yet.
    StillRunning,
    /// The process has exited, with or without success.
    Exited { success: bool },
}

/// What is known of a process once it has been polled: the time since its
/// start, its exit, and what reading back each captured stream gave.
#[derive(Debug, PartialEq, Eq)]
pub struct ProcessReport {
    pub elapsed: Duration,
    pub exit: ExitCheck,
    pub stdout: Result<String, String>,
    pub stderr: Result<String, String>,
}

/// What a `ProcessReport` is.
pub ghost struct ReportModel {
    pub elapsed: Duration,
    pub exit: ExitCheck,
    pub stdout: Result<Seq<char>, Seq<char>>,
    pub stderr: Result<Seq<char>, Seq<char>>,
}

/// The view of what reading a stream gave.
pub open spec fn capture_view(capture: Result<String, String>) -> Result<Seq<char>, Seq<char>> {
    match capture {
        Ok(text) => Ok(text@),
        Err(message) => Err(message@),
    }
}

impl View for ProcessReport {
    type V = ReportModel;

    open spec fn view(&self) -> ReportModel {
        ReportModel {
            elapsed: self.elapsed,
            exit: self.exit,
            stdout: capture_view(self.stdout),
            stderr: capture_view(self.stderr),
        }
    }
}

/// The view of a report that may be missing.
pub open spec fn report_view(report: Option<ProcessReport>) -> Option<ReportModel> {
    match report {
        Some(r) => Some(r@),
        None => None,
    }
}

/// A test case as the worker holds it.
#[derive(Debug)]
pub struct RunnableTestCase {
    id: usize,
    complexity: u32,
    command_template: String,
    arg: String,
    expected_stdout: String,
    error: Option<String>,
    started: bool,
}

/// What a `RunnableTestCase` is: its data, the message of a failed start if
/// there was one, and whether its process was started.
pub ghost struct RunnableModel {
    pub id: usize,
    pub complexity: u32,
    pub command_template: Seq<char>,
    pub arg: Seq<char>,
    pub expected_stdout: Seq<char>,
    pub error: Option<Seq<char>>,
    pub started: bool,
}

impl RunnableModel {
    /// A case that was neither started nor failed to start.
    pub open spec fn is_fresh(self) -> bool {
        !self.started && self.error is None
    }

    /// The status last reported for a case in this state that is still
    /// waiting for its result.
    pub open spec fn reported(self) -> StatusModel {
        if self.started {
            StatusModel::Running
        } else {
            StatusModel::NotRun
        }
    }
}

/// The command that a case is run with: the template, a space, and the
/// case's input, split as a shell would. A template that holds no word is
/// refused as an empty command, so that no word of the input is taken for
/// the program.
pub open spec fn run_command(template: Seq<char>, arg: Seq<char>) -> Result<
    CommandModel,
    Seq<char>,
> {
    if holds_no_word(template) {
        Err(empty_command_message())
    } else {
        let line = template + seq![' '] + arg;
        command_from_words(line, shlex_split(line))
    }
}

/// The final status of a case, given what is known of its process and
/// whether its output agrees with the expected one.
///
/// A failed start gives its message; a case without a process was never
/// started; a process that exited without success gives what it wrote to its
/// error stream; one that exited with success passes when its output agrees
/// with the expected output, and fails otherwise. A stream that cannot be
/// read back gives an error that names the stream.
pub open spec fn classify_given(
    case: RunnableModel,
    report: Option<ReportModel>,
    outputs_agree: bool,
) -> StatusModel {
    if let Some(message) = case.error {
        StatusModel::Error { err_msg: message + "(While handling the test case)"@ }
    } else if !case.started || report is None {
        StatusModel::Error { err_msg: "Process has not even started."@ }
    } else {
        let report = report->0;
        match report.exit {
            ExitCheck::CheckFailed => StatusModel::Error { err_msg: "Error checking exit status."@ },
            ExitCheck::StillRunning => StatusModel::Error {
                err_msg: "Process has not finished but shuld have"@,
            },
            ExitCheck::Exited { success: true } => match report.stdout {
                Err(message) => StatusModel::Error { err_msg: message + "(while cheching stdout)"@ },
                Ok(actual) => if outputs_agree {
                    StatusModel::Pass { time: report.elapsed, complexity: case.complexity }
                } else {
                    StatusModel::Fail {
                        expected: case.expected_stdout,
                        actual,
                        time: report.elapsed,
                        complexity: case.complexity,
                    }
                },
            },
            ExitCheck::Exited { success: false } => match report.stderr {
                Ok(text) => StatusModel::Error { err_msg: text },
                Err(message) => StatusModel::Error {
                    err_msg: message + "(while checking stderr)"@,
                },
            },
        }
    }
}

/// Whether the output that was captured agrees with the expected one: the
/// two are equal once their whitespace is removed.
pub open spec fn outputs_agree(case: RunnableModel, report: Option<ReportModel>) -> bool {
    match report {
        Some(report) => match report.stdout {
            Ok(actual) => without_whitespace(actual) == without_whitespace(case.expected_stdout),
            Err(_) => false,
        },
        None => false,
    }
}

/// The final status of a case, given what is known of its process: see
/// `classify_given`, with the outputs compared up to whitespace.
pub open spec fn classify(case: RunnableModel, report: Option<ReportModel>) -> StatusModel {
    classify_given(case, report, outputs_agree(case, report))
}

/// Two outputs that are equal up to whitespace are classified alike: with
/// the same expected output, both pass or both fail.
pub proof fn lemma_classification_ignores_whitespace(
    case: RunnableModel,
    report: ReportModel,
    actual: Seq<char>,
    other: Seq<char>,
)
    requires
        without_whitespace(actual) == without_whitespace(other),
    ensures
        classify(case, Some(ReportModel { stdout: Ok(actual), ..report })) is Pass <==> classify(
            case,
            Some(ReportModel { stdout: Ok(other), ..report }),
        ) is Pass,
        classify(case, Some(ReportModel { stdout: Ok(actual), ..report })) is Fail <==> classify(
            case,
            Some(ReportModel { stdout: Ok(other), ..report }),
        ) is Fail,
{
}

/// Whether a case in this state needs no more waiting, given what polling
/// its process gave.
pub open spec fn finished(case: RunnableModel, check: ExitCheck) -> bool {
    case.error is Some || (case.started && check != ExitCheck::StillRunning)
}

impl View for RunnableTestCase {
    type V = RunnableModel;

    closed spec fn view(&self) -> RunnableModel {
        RunnableModel {
            id: self.id,
            complexity: self.complexity,
            command_template: self.command_template@,
            arg: self.arg@,
            expected_stdout: self.expected_stdout@,
            error: match self.error {
                Some(message) => Some(message@),
                None => None,
            },
            started: self.started,
        }
    }
}

impl RunnableTestCase {
    /// A case that has not been started.
    pub fn new(
        id: usize,
        complexity: u32,
        command_template: String,
        arg: String,
        expected_stdout: String,
    ) -> (case: Self)
        ensures
            case@ == (RunnableModel {
                id,
                complexity,
                command_template: command_template@,
                arg: arg@,
                expected_stdout: expected_stdout@,
                error: None,
                started: false,
            }),
    {
        RunnableTestCase {
            id,
            complexity,
            command_template,
            arg,
            expected_stdout,
            error: None,
            started: false,
        }
    }

    /// The id of the test case.
    pub fn id(&self) -> (id: usize)
        ensures
            id == self@.id,
    {
        self.id
    }

    /// First half of a start: builds the command to spawn. Where the command
    /// cannot be built, the case keeps the message and counts as finished.
    pub fn start(&mut self) -> (command: Option<ParsedCommand>)
        ensures
            match run_command(old(self)@.command_template, old(self)@.arg) {
                Ok(model) => command is Some && command->0@ == model && final(self)@ == old(self)@,
                Err(message) => command is None && final(self)@ == (RunnableModel {
                    error: Some(message),
                    ..old(self)@
                }),
            },
    {
        if has_no_word(self.command_template.as_str()) {
            self.error = Some("As of now, all compile/run command must noe be empty".to_string());
            return None;
        }
        let line = self.command_template.clone().concat(" ").concat(self.arg.as_str());
        proof {
            reveal_strlit(" ");
            assert(" "@ =~= seq![' ']);
        }
        match parse_command(line.as_str()) {
            Ok(command) => Some(command),
            Err(message) => {
                self.error = Some(message);
                None
            },
        }
    }

    /// Second half of a start: records whether the process was spawned. A
    /// refusal keeps its message, and the case counts as finished.
    pub fn spawned(&mut self, outcome: Result<(), String>)
        ensures
            final(self)@ == match outcome {
                Ok(_) => RunnableModel { started: true, error: None, ..old(self)@ },
                Err(message) => RunnableModel { error: Some(message@), ..old(self)@ },
            },
    {
        match outcome {
            Ok(_) => {
                self.started = true;
                self.error = None;
            },
            Err(message) => {
                self.error = Some(message);
            },
        }
    }

    /// Whether a process was started for the case.
    pub fn has_started(&self) -> (started: bool)
        ensures
            started == self@.started,
    {
        self.started
    }

    /// Whether the start of the case failed.
    pub fn has_failed(&self) -> (failed: bool)
        ensures
            failed == (self@.error is Some),
    {
        self.error.is_some()
    }

    /// Whether the case needs no more waiting: its start failed, or its
    /// process was polled and is not running any more. `check` is looked at
    /// only for a case that was started.
    pub fn has_finished(&self, check: ExitCheck) -> (done: bool)
        ensures
            done == finished(self@, check),
    {
        if self.error.is_some() {
            return true;
        }
        if self.started {
            return match check {
                ExitCheck::StillRunning => false,
                _ => true,
            };
        }
        false
    }

    /// Consumes the case and gives its final status. `report` is what is
    /// known of its process, `None` where there is none.
    pub fn get_results(self, report: Option<ProcessReport>) -> (status: TestCaseStatus)
        ensures
            status@ == classify(self@, report_view(report)),
    {
        let agree = match &report {
            Some(report) => match &report.stdout {
                Ok(actual) => remove_whitespace(actual.as_str()) == remove_whitespace(
                    self.expected_stdout.as_str(),
                ),
                Err(_) => false,
            },
            None => false,
        };
        self.classified(report, agree)
    }

    /// Consumes the case and gives its final status, for a caller that has
    /// compared the captured output with the expected one.
    pub fn classified(self, report: Option<ProcessReport>, outputs_agree: bool) -> (status:
        TestCaseStatus)
        ensures
            status@ == classify_given(self@, report_view(report), outputs_agree),
    {
        let RunnableTestCase {
            id: _,
            complexity,
            command_template: _,
            arg: _,
            expected_stdout,
            error,
            started,
        } = self;
        if let Some(message) = error {
            return TestCaseStatus::Error {
                err_msg: message.concat("(While handling the test case)"),
            };
        }
        let report = match report {
            Some(report) => report,
            None => {
                return TestCaseStatus::Error { err_msg: "Process has not even started.".to_string() };
            },
        };
        if !started {
            return TestCaseStatus::Error { err_msg: "Process has not even started.".to_string() };
        }
        let ProcessReport { elapsed, exit, stdout, stderr } = report;
        match exit {
            ExitCheck::CheckFailed => TestCaseStatus::Error {
                err_msg: "Error checking exit status.".to_string(),
            },
            ExitCheck::StillRunning => TestCaseStatus::Error {
                err_msg: "Process has not finished but shuld have".to_string(),
            },
            ExitCheck::Exited { success } => {
                if success {
                    let actual = match stdout {
                        Ok(text) => text,
                        Err(message) => {
                            return TestCaseStatus::Error {
                                err_msg: message.concat("(while cheching stdout)"),
                            };
                        },
                    };
                    if outputs_agree {
                        return TestCaseStatus::Pass { time: elapsed, complexity };
                    }
                    return TestCaseStatus::Fail {
                        expected: expected_stdout,
                        actual,
                        time: elapsed,
                        complexity,
                    };
                }
                match stderr {
                    Ok(text) => TestCaseStatus::Error { err_msg: text },
                    Err(message) => TestCaseStatus::Error {
                        err_msg: message.concat("(while checking stderr)"),
                    },
                }
            },
        }
    }
}

} // verus!

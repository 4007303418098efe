//! The values that travel between the suite, the front-end handle and the
//! worker, each with its mathematical view.

use std::time::Duration;
use vstd::prelude::*;

verus! {

/// Direction of a move through a list.
#[derive(Debug, Clone, Copy, PartialEq, Eq, Structural)]
pub enum Direction {
    Next,
    Previous,
}

/// The screens of the program.
#[derive(Debug, Clone, Copy, PartialEq, Eq, Structural)]
pub enum Menu {
    Select,
    Solve,
    Help,
}

impl Default for Menu {
    fn default() -> (menu: Self)
        ensures
            menu == Menu::Select,
    {
        Menu::Select
    }
}

/// The tabs shown under a problem.
#[derive(Debug, Clone, Copy, PartialEq, Eq, Structural)]
pub enum ProblemDataTab {
    TestCases,
    Commands,
    Details,
    Performance,
}

impl Default for ProblemDataTab {
    fn default() -> (tab: Self)
        ensures
            tab == ProblemDataTab::Commands,
    {
        ProblemDataTab::Commands
    }
}

#[derive(Debug, Clone, Copy, PartialEq, Eq, Structural)]
pub enum Difficulty {
    Easy,
    Medium,
    Hard,
}

/// The command line that is being edited.
#[derive(Debug, Clone, Copy, PartialEq, Eq, Structural)]
pub enum InputField {
    CompileCommand,
    RunCommand,
}

/// One unit of work: an input, the output expected for it, and a weight.
#[derive(Debug, PartialEq, Eq)]
pub struct TestCase {
    pub id: usize,
    pub complexity: u32,
    pub input: String,
    pub output: String,
    pub is_stress_test: bool,
}

/// What a `TestCase` is, with its texts as sequences of characters.
pub ghost struct TestCaseModel {
    pub id: usize,
    pub complexity: u32,
    pub input: Seq<char>,
    pub output: Seq<char>,
    pub is_stress_test: bool,
}

impl View for TestCase {
    type V = TestCaseModel;

    open spec fn view(&self) -> TestCaseModel {
        TestCaseModel {
            id: self.id,
            complexity: self.complexity,
            input: self.input@,
            output: self.output@,
            is_stress_test: self.is_stress_test,
        }
    }
}

impl Clone for TestCase {
    fn clone(&self) -> (copy: Self)
        ensures
            copy@ == self@,
    {
        TestCase {
            id: self.id,
            complexity: self.complexity,
            input: self.input.clone(),
            output: self.output.clone(),
            is_stress_test: self.is_stress_test,
        }
    }
}

/// The views of a sequence of test cases, in order.
pub open spec fn cases_view(cases: Seq<TestCase>) -> Seq<TestCaseModel> {
    Seq::new(cases.len(), |i: int| cases[i]@)
}

/// Copies a list of test cases.
pub fn clone_cases(cases: &Vec<TestCase>) -> (copy: Vec<TestCase>)
    ensures
        cases_view(copy@) == cases_view(cases@),
{
    let mut copy: Vec<TestCase> = Vec::new();
    let mut i: usize = 0;
    while i < cases.len()
        invariant
            i <= cases.len(),
            copy.len() == i,
            forall|k: int| 0 <= k < i ==> (#[trigger] copy[k])@ == cases[k]@,
        decreases cases.len() - i,
    {
        copy.push(cases[i].clone());
        i += 1;
    }
    assert(cases_view(copy@) =~= cases_view(cases@));
    copy
}

/// A named problem with its declared test cases.
#[derive(Debug, PartialEq, Eq)]
pub struct Problem {
    pub name: String,
    pub statement: String,
    pub test_cases: Vec<TestCase>,
    pub difficulty: Difficulty,
}

/// What a `Problem` is.
pub ghost struct ProblemModel {
    pub name: Seq<char>,
    pub statement: Seq<char>,
    pub test_cases: Seq<TestCaseModel>,
    pub difficulty: Difficulty,
}

impl View for Problem {
    type V = ProblemModel;

    open spec fn view(&self) -> ProblemModel {
        ProblemModel {
            name: self.name@,
            statement: self.statement@,
            test_cases: cases_view(self.test_cases@),
            difficulty: self.difficulty,
        }
    }
}

/// The views of a sequence of problems, in order.
pub open spec fn problems_view(problems: Seq<Problem>) -> Seq<ProblemModel> {
    Seq::new(problems.len(), |i: int| problems[i]@)
}

impl Clone for Problem {
    fn clone(&self) -> (copy: Self)
        ensures
            copy@ == self@,
    {
        Problem {
            name: self.name.clone(),
            statement: self.statement.clone(),
            test_cases: clone_cases(&self.test_cases),
            difficulty: self.difficulty,
        }
    }
}

/// Outcome of one test case.
#[derive(Debug, PartialEq, Eq, Hash)]
pub enum TestCaseStatus {
    Pass { time: Duration, complexity: u32 },
    Fail { expected: String, actual: String, time: Duration, complexity: u32 },
    Error { err_msg: String },
    Cancelled,
    Running,
    NotRun,
}

/// What a `TestCaseStatus` is, with its texts as sequences of characters.
pub ghost enum StatusModel {
    Pass { time: Duration, complexity: u32 },
    Fail { expected: Seq<char>, actual: Seq<char>, time: Duration, complexity: u32 },
    Error { err_msg: Seq<char> },
    Cancelled,
    Running,
    NotRun,
}

impl StatusModel {
    /// A status after which nothing more is reported for the same run of the case.
    pub open spec fn is_terminal(self) -> bool {
        self is Pass || self is Fail || self is Error || self is Cancelled
    }
}

impl View for TestCaseStatus {
    type V = StatusModel;

    open spec fn view(&self) -> StatusModel {
        match *self {
            TestCaseStatus::Pass { time, complexity } => StatusModel::Pass { time, complexity },
            TestCaseStatus::Fail { expected, actual, time, complexity } => StatusModel::Fail {
                expected: expected@,
                actual: actual@,
                time,
                complexity,
            },
            TestCaseStatus::Error { err_msg } => StatusModel::Error { err_msg: err_msg@ },
            TestCaseStatus::Cancelled => StatusModel::Cancelled,
            TestCaseStatus::Running => StatusModel::Running,
            TestCaseStatus::NotRun => StatusModel::NotRun,
        }
    }
}

impl Clone for TestCaseStatus {
    fn clone(&self) -> (copy: Self)
        ensures
            copy@ == self@,
    {
        match self {
            TestCaseStatus::Pass { time, complexity } => TestCaseStatus::Pass {
                time: *time,
                complexity: *complexity,
            },
            TestCaseStatus::Fail { expected, actual, time, complexity } => TestCaseStatus::Fail {
                expected: expected.clone(),
                actual: actual.clone(),
                time: *time,
                complexity: *complexity,
            },
            TestCaseStatus::Error { err_msg } => TestCaseStatus::Error { err_msg: err_msg.clone() },
            TestCaseStatus::Cancelled => TestCaseStatus::Cancelled,
            TestCaseStatus::Running => TestCaseStatus::Running,
            TestCaseStatus::NotRun => TestCaseStatus::NotRun,
        }
    }
}

impl Default for TestCaseStatus {
    fn default() -> (status: Self)
        ensures
            status@ == StatusModel::NotRun,
    {
        TestCaseStatus::NotRun
    }
}

/// The views of a sequence of statuses, in order.
pub open spec fn statuses_view(statuses: Seq<TestCaseStatus>) -> Seq<StatusModel> {
    Seq::new(statuses.len(), |i: int| statuses[i]@)
}

/// A status change of the test case `id`, sent by the worker.
#[derive(Debug, PartialEq, Eq)]
pub struct RunResponse {
    pub id: usize,
    pub status: TestCaseStatus,
}

/// What a `RunResponse` is.
pub ghost struct ResponseModel {
    pub id: usize,
    pub status: StatusModel,
}

impl View for RunResponse {
    type V = ResponseModel;

    open spec fn view(&self) -> ResponseModel {
        ResponseModel { id: self.id, status: self.status@ }
    }
}

impl Clone for RunResponse {
    fn clone(&self) -> (copy: Self)
        ensures
            copy@ == self@,
    {
        RunResponse { id: self.id, status: self.status.clone() }
    }
}

/// The views of a sequence of responses, in order.
pub open spec fn responses_view(responses: Seq<RunResponse>) -> Seq<ResponseModel> {
    Seq::new(responses.len(), |i: int| responses[i]@)
}

/// What a run needs: the two commands and the cases to run.
#[derive(Debug, PartialEq, Eq)]
pub struct RunDetails {
    pub compile_script: String,
    pub run_script: String,
    pub test_cases: Vec<TestCase>,
}

/// What a `RunDetails` is.
pub ghost struct RunDetailsModel {
    pub compile_script: Seq<char>,
    pub run_script: Seq<char>,
    pub test_cases: Seq<TestCaseModel>,
}

impl View for RunDetails {
    type V = RunDetailsModel;

    open spec fn view(&self) -> RunDetailsModel {
        RunDetailsModel {
            compile_script: self.compile_script@,
            run_script: self.run_script@,
            test_cases: cases_view(self.test_cases@),
        }
    }
}

impl Clone for RunDetails {
    fn clone(&self) -> (copy: Self)
        ensures
            copy@ == self@,
    {
        RunDetails {
            compile_script: self.compile_script.clone(),
            run_script: self.run_script.clone(),
            test_cases: clone_cases(&self.test_cases),
        }
    }
}

/// An instruction to the worker.
#[derive(Debug, PartialEq, Eq)]
pub enum RunRequest {
    PleaseRun(RunDetails),
    PleaseStop,
}

/// What a `RunRequest` is.
pub ghost enum RequestModel {
    PleaseRun(RunDetailsModel),
    PleaseStop,
}

impl View for RunRequest {
    type V = RequestModel;

    open spec fn view(&self) -> RequestModel {
        match *self {
            RunRequest::PleaseRun(details) => RequestModel::PleaseRun(details@),
            RunRequest::PleaseStop => RequestModel::PleaseStop,
        }
    }
}

impl Clone for RunRequest {
    fn clone(&self) -> (copy: Self)
        ensures
            copy@ == self@,
    {
        match self {
            RunRequest::PleaseRun(details) => RunRequest::PleaseRun(details.clone()),
            RunRequest::PleaseStop => RunRequest::PleaseStop,
        }
    }
}

/// The id under which a failure of the whole suite is reported.
pub const SUITE_ID: usize = 0;

} // verus!

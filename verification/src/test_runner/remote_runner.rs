//! The worker's scheduler: a queue of test cases of which only the first is
//! ever in flight. Each function is one decision of the worker's loop; the
//! loop itself, with its processes and channels, runs around them.

use crate::common::{
    responses_view, RequestModel, ResponseModel, RunDetails, RunDetailsModel, RunRequest,
    RunResponse, StatusModel, TestCaseModel, TestCaseStatus, SUITE_ID,
};
use crate::test_runner::runnable_test_case::{
    classify, run_command, ExitCheck, ProcessReport, ReportModel, RunnableModel,
    RunnableTestCase,
};
use crate::test_runner::{
    command_from_words, parse_command, shlex_split, CommandModel, ParsedCommand,
};
use std::collections::VecDeque;
use vstd::prelude::*;

verus! {

/// A queue in which no case has failed to start and only the first may have
/// been started.
pub open spec fn queue_wf(queue: Seq<RunnableModel>) -> bool {
    forall|i: int|
        0 <= i < queue.len() ==> (#[trigger] queue[i]).error is None && (i > 0
            ==> !queue[i].started)
}

/// One `Cancelled` response for each queued case, in the order of the queue.
pub open spec fn cancellations(queue: Seq<RunnableModel>) -> Seq<ResponseModel> {
    Seq::new(
        queue.len(),
        |i: int| ResponseModel { id: queue[i].id, status: StatusModel::Cancelled },
    )
}

/// The case that a run makes of a test case: not started, with the run
/// command as its template and the test case's id.
pub open spec fn fresh_case(case: TestCaseModel, run_script: Seq<char>) -> RunnableModel {
    RunnableModel {
        id: case.id,
        complexity: case.complexity,
        command_template: run_script,
        arg: case.input,
        expected_stdout: case.output,
        error: None,
        started: false,
    }
}

/// The queue that a run starts with: one fresh case for each test case, in
/// the order given.
pub open spec fn fresh_queue(details: RunDetailsModel) -> Seq<RunnableModel> {
    Seq::new(
        details.test_cases.len(),
        |i: int| fresh_case(details.test_cases[i], details.run_script),
    )
}

/// The response that reports a failure of the whole suite.
pub open spec fn suite_failure(message: Seq<char>) -> ResponseModel {
    ResponseModel { id: SUITE_ID, status: StatusModel::Error { err_msg: message } }
}

/// How running the compile command ended.
#[derive(Debug, PartialEq, Eq)]
pub enum CompileReport {
    /// The command could not be spawned.
    SpawnFailed { message: String },
    /// The command ran and exited; `stderr` is what it wrote to its error stream.
    Exited { success: bool, stderr: String },
}

/// What a `CompileReport` is.
pub ghost enum CompileReportModel {
    SpawnFailed { message: Seq<char> },
    Exited { success: bool, stderr: Seq<char> },
}

impl View for CompileReport {
    type V = CompileReportModel;

    open spec fn view(&self) -> CompileReportModel {
        match *self {
            CompileReport::SpawnFailed { message } => CompileReportModel::SpawnFailed {
                message: message@,
            },
            CompileReport::Exited { success, stderr } => CompileReportModel::Exited {
                success,
                stderr: stderr@,
            },
        }
    }
}

impl CompileReportModel {
    /// The message of a failed compilation, `None` where it succeeded: a
    /// command that could not be spawned and one that exited without success
    /// both fail.
    pub open spec fn failure(self) -> Option<Seq<char>> {
        match self {
            CompileReportModel::SpawnFailed { message } => Some(message),
            CompileReportModel::Exited { success, stderr } => if success {
                None
            } else {
                Some(stderr)
            },
        }
    }
}

/// A run that waits for its compile command to be executed.
#[derive(Debug, PartialEq, Eq)]
pub struct CompileJob {
    pub command: ParsedCommand,
    pub details: RunDetails,
}

/// What the worker does after a request: the responses to send, and the
/// compilation to perform if the request was a run whose compile command
/// could be parsed.
#[derive(Debug, PartialEq, Eq)]
pub struct Handled {
    pub responses: Vec<RunResponse>,
    pub compile: Option<CompileJob>,
}

/// What the worker does next for the case at the front of the queue.
#[derive(Debug, PartialEq, Eq)]
pub enum Progress {
    /// Nothing is queued.
    Idle,
    /// Spawn this command for the case `id`, then call `spawn_finished`.
    Spawn { id: usize, command: ParsedCommand },
    /// Poll the process of the case `id`, then call `process_polled`.
    Poll { id: usize },
    /// The case could not be started: send this response.
    Report(RunResponse),
}

/// What a `Progress` is.
pub ghost enum ProgressModel {
    Idle,
    Spawn { id: usize, command: CommandModel },
    Poll { id: usize },
    Report(ResponseModel),
}

impl View for Progress {
    type V = ProgressModel;

    open spec fn view(&self) -> ProgressModel {
        match *self {
            Progress::Idle => ProgressModel::Idle,
            Progress::Spawn { id, command } => ProgressModel::Spawn { id, command: command@ },
            Progress::Poll { id } => ProgressModel::Poll { id },
            Progress::Report(response) => ProgressModel::Report(response@),
        }
    }
}

/// The view of a response that may be missing.
pub open spec fn response_view(response: Option<RunResponse>) -> Option<ResponseModel> {
    match response {
        Some(r) => Some(r@),
        None => None,
    }
}

/// The next step for a queue, and the queue after it.
///
/// An empty queue is idle. A started front case is polled. A front case that
/// was not started is started: where its command can be built it is to be
/// spawned, and else it leaves the queue with the error as its final status.
pub open spec fn next_step(queue: Seq<RunnableModel>) -> (ProgressModel, Seq<RunnableModel>) {
    if queue.len() == 0 {
        (ProgressModel::Idle, queue)
    } else if queue[0].started {
        (ProgressModel::Poll { id: queue[0].id }, queue)
    } else {
        match run_command(queue[0].command_template, queue[0].arg) {
            Ok(command) => (ProgressModel::Spawn { id: queue[0].id, command }, queue),
            Err(message) => (
                ProgressModel::Report(
                    ResponseModel {
                        id: queue[0].id,
                        status: classify(RunnableModel { error: Some(message), ..queue[0] }, None),
                    },
                ),
                queue.drop_first(),
            ),
        }
    }
}

/// The response to a spawn, and the queue after it.
///
/// A spawned case is reported as running and stays at the front. A refused
/// spawn removes the case with the error as its final status. Where no case
/// waits to be spawned, nothing happens.
pub open spec fn after_spawn(queue: Seq<RunnableModel>, outcome: Result<(), Seq<char>>) -> (
    Option<ResponseModel>,
    Seq<RunnableModel>,
) {
    if queue.len() == 0 || queue[0].started {
        (None, queue)
    } else {
        match outcome {
            Ok(_) => (
                Some(ResponseModel { id: queue[0].id, status: StatusModel::Running }),
                queue.update(0, RunnableModel { started: true, ..queue[0] }),
            ),
            Err(message) => (
                Some(
                    ResponseModel {
                        id: queue[0].id,
                        status: classify(RunnableModel { error: Some(message), ..queue[0] }, None),
                    },
                ),
                queue.drop_first(),
            ),
        }
    }
}

/// The response to a poll, and the queue after it.
///
/// A process that has not exited leaves everything as it is. Otherwise the
/// front case leaves the queue with its final status. Where no started case
/// is at the front, nothing happens.
pub open spec fn after_poll(queue: Seq<RunnableModel>, report: ReportModel) -> (
    Option<ResponseModel>,
    Seq<RunnableModel>,
) {
    if queue.len() == 0 || !queue[0].started || report.exit == ExitCheck::StillRunning {
        (None, queue)
    } else {
        (
            Some(ResponseModel { id: queue[0].id, status: classify(queue[0], Some(report)) }),
            queue.drop_first(),
        )
    }
}

/// The view of the outcome of a spawn.
pub open spec fn spawn_view(outcome: Result<(), String>) -> Result<(), Seq<char>> {
    match outcome {
        Ok(_) => Ok(()),
        Err(message) => Err(message@),
    }
}

/// The scheduler of the worker.
#[derive(Debug)]
pub struct RemoteRunner {
    to_run: VecDeque<RunnableTestCase>,
}

impl View for RemoteRunner {
    type V = Seq<RunnableModel>;

    closed spec fn view(&self) -> Seq<RunnableModel> {
        Seq::new(self.to_run@.len(), |i: int| self.to_run@[i]@)
    }
}

impl RemoteRunner {
    /// The invariant of the scheduler: see `queue_wf`.
    pub open spec fn wf(&self) -> bool {
        queue_wf(self@)
    }

    /// A scheduler with nothing to run.
    pub fn new() -> (runner: Self)
        ensures
            runner@ == Seq::<RunnableModel>::empty(),
            runner.wf(),
    {
        let runner = RemoteRunner { to_run: VecDeque::new() };
        assert(runner@ =~= Seq::<RunnableModel>::empty());
        runner
    }

    /// Whether the queue is well formed: see `queue_wf`.
    pub fn is_wf(&self) -> (wf: bool)
        ensures
            wf == self.wf(),
    {
        let mut i: usize = 0;
        while i < self.to_run.len()
            invariant
                i <= self.to_run@.len(),
                forall|k: int|
                    0 <= k < i ==> (#[trigger] self@[k]).error is None && (k > 0
                        ==> !self@[k].started),
            decreases self.to_run@.len() - i,
        {
            let case = &self.to_run[i];
            assert(case@ == self@[i as int]);
            if case.has_failed() || (i > 0 && case.has_started()) {
                return false;
            }
            i += 1;
        }
        true
    }

    /// The number of cases that are queued.
    pub fn queued(&self) -> (n: usize)
        ensures
            n == self@.len(),
    {
        self.to_run.len()
    }

    /// Whether the case at the front of the queue has a process in flight.
    pub fn is_running(&self) -> (running: bool)
        ensures
            running == (self@.len() > 0 && self@[0].started),
    {
        if self.to_run.len() == 0 {
            false
        } else {
            self.to_run[0].has_started()
        }
    }

    /// Cancels every queued case: one `Cancelled` response for each, in the
    /// order of the queue, and an empty queue.
    pub fn abort_curr_run(&mut self) -> (responses: Vec<RunResponse>)
        ensures
            responses_view(responses@) == cancellations(old(self)@),
            final(self)@ == Seq::<RunnableModel>::empty(),
            final(self).wf(),
    {
        let mut responses: Vec<RunResponse> = Vec::new();
        let mut i: usize = 0;
        while i < self.to_run.len()
            invariant
                i <= self.to_run@.len(),
                *self == *old(self),
                responses.len() == i,
                forall|k: int|
                    0 <= k < i ==> (#[trigger] responses[k])@ == cancellations(old(self)@)[k],
            decreases self.to_run@.len() - i,
        {
            let id = self.to_run[i].id();
            responses.push(RunResponse { id, status: TestCaseStatus::Cancelled });
            i += 1;
        }
        self.to_run = VecDeque::new();
        assert(responses_view(responses@) =~= cancellations(old(self)@));
        assert(self@ =~= Seq::<RunnableModel>::empty());
        responses
    }

    /// Handles a request. Either kind first cancels what is queued. A run
    /// whose compile command can be parsed is handed back as a job to compile;
    /// one whose compile command cannot be parsed fails at once, with one
    /// response under the suite's id.
    pub fn try_handle_next_request(&mut self, request: RunRequest) -> (handled: Handled)
        ensures
            final(self)@ == Seq::<RunnableModel>::empty(),
            final(self).wf(),
            match request@ {
                RequestModel::PleaseStop => {
                    &&& handled.compile is None
                    &&& responses_view(handled.responses@) == cancellations(old(self)@)
                },
                RequestModel::PleaseRun(details) => match command_from_words(
                    details.compile_script,
                    shlex_split(details.compile_script),
                ) {
                    Ok(command) => {
                        &&& handled.compile is Some
                        &&& handled.compile->0.command@ == command
                        &&& handled.compile->0.details@ == details
                        &&& responses_view(handled.responses@) == cancellations(old(self)@)
                    },
                    Err(message) => {
                        &&& handled.compile is None
                        &&& responses_view(handled.responses@) == cancellations(old(self)@).push(
                            suite_failure(message),
                        )
                    },
                },
            },
    {
        let mut responses = self.abort_curr_run();
        match request {
            RunRequest::PleaseStop => Handled { responses, compile: None },
            RunRequest::PleaseRun(details) => {
                match parse_command(details.compile_script.as_str()) {
                    Ok(command) => Handled {
                        responses,
                        compile: Some(CompileJob { command, details }),
                    },
                    Err(err_msg) => {
                        let ghost before = responses_view(responses@);
                        responses.push(
                            RunResponse { id: SUITE_ID, status: TestCaseStatus::Error { err_msg } },
                        );
                        assert(responses_view(responses@) =~= before.push(
                            suite_failure(err_msg@),
                        ));
                        Handled { responses, compile: None }
                    },
                }
            },
        }
    }

    /// Takes up a run once its compile command was executed. What was queued
    /// is cancelled. A failed compilation gives one response under the
    /// suite's id and queues nothing; a successful one queues a fresh case
    /// for each test case, in the order given, and reports nothing.
    pub fn setup_new_run(&mut self, details: RunDetails, report: CompileReport) -> (responses: Vec<
        RunResponse,
    >)
        ensures
            final(self).wf(),
            match report@.failure() {
                Some(message) => {
                    &&& final(self)@ == Seq::<RunnableModel>::empty()
                    &&& responses_view(responses@) == cancellations(old(self)@).push(
                        suite_failure(message),
                    )
                },
                None => {
                    &&& final(self)@ == fresh_queue(details@)
                    &&& responses_view(responses@) == cancellations(old(self)@)
                },
            },
    {
        let mut responses = self.abort_curr_run();
        let ghost before = responses_view(responses@);
        let failure = match report {
            CompileReport::SpawnFailed { message } => Some(message),
            CompileReport::Exited { success, stderr } => if success {
                None
            } else {
                Some(stderr)
            },
        };
        match failure {
            Some(err_msg) => {
                responses.push(
                    RunResponse { id: SUITE_ID, status: TestCaseStatus::Error { err_msg } },
                );
                assert(responses_view(responses@) =~= before.push(suite_failure(err_msg@)));
            },
            None => {
                let RunDetails { compile_script: _, run_script, test_cases } = details;
                assert(self.to_run@.len() == self@.len());
                let mut i: usize = 0;
                while i < test_cases.len()
                    invariant
                        i <= test_cases.len(),
                        self.to_run@.len() == i,
                        test_cases@ == details.test_cases@,
                        run_script@ == details.run_script@,
                        forall|k: int|
                            0 <= k < i ==> (#[trigger] self.to_run@[k])@ == fresh_queue(
                                details@,
                            )[k],
                    decreases test_cases.len() - i,
                {
                    let case = &test_cases[i];
                    self.to_run.push_back(
                        RunnableTestCase::new(
                            case.id,
                            case.complexity,
                            run_script.clone(),
                            case.input.clone(),
                            case.output.clone(),
                        ),
                    );
                    i += 1;
                }
                assert(self@ =~= fresh_queue(details@));
            },
        }
        responses
    }

    /// Decides the next step for the case at the front of the queue: see
    /// `next_step`.
    pub fn continue_running_last_request(&mut self) -> (progress: Progress)
        requires
            old(self).wf(),
        ensures
            final(self).wf(),
            (progress@, final(self)@) == next_step(old(self)@),
    {
        let mut current = match self.to_run.pop_front() {
            Some(case) => case,
            None => {
                assert(self@ =~= old(self)@);
                return Progress::Idle;
            },
        };
        assert(current@ == old(self)@[0]);
        assert(self@ =~= old(self)@.drop_first());
        let id = current.id();
        if current.has_started() {
            self.to_run.push_front(current);
            assert(self@ =~= old(self)@);
            return Progress::Poll { id };
        }
        match current.start() {
            Some(command) => {
                self.to_run.push_front(current);
                assert(self@ =~= old(self)@);
                Progress::Spawn { id, command }
            },
            None => {
                let status = current.get_results(None);
                Progress::Report(RunResponse { id, status })
            },
        }
    }

    /// Records the outcome of spawning the front case: see `after_spawn`.
    pub fn spawn_finished(&mut self, outcome: Result<(), String>) -> (response: Option<
        RunResponse,
    >)
        requires
            old(self).wf(),
        ensures
            final(self).wf(),
            (response_view(response), final(self)@) == after_spawn(
                old(self)@,
                spawn_view(outcome),
            ),
    {
        let mut current = match self.to_run.pop_front() {
            Some(case) => case,
            None => {
                assert(self@ =~= old(self)@);
                return None;
            },
        };
        assert(current@ == old(self)@[0]);
        assert(self@ =~= old(self)@.drop_first());
        let id = current.id();
        if current.has_started() {
            self.to_run.push_front(current);
            assert(self@ =~= old(self)@);
            return None;
        }
        let spawned = outcome.is_ok();
        current.spawned(outcome);
        if spawned {
            self.to_run.push_front(current);
            assert(self@ =~= old(self)@.update(
                0,
                RunnableModel { started: true, ..old(self)@[0] },
            ));
            Some(RunResponse { id, status: TestCaseStatus::Running })
        } else {
            let status = current.get_results(None);
            Some(RunResponse { id, status })
        }
    }

    /// Records what polling the process of the front case gave: see
    /// `after_poll`.
    pub fn process_polled(&mut self, report: ProcessReport) -> (response: Option<RunResponse>)
        requires
            old(self).wf(),
        ensures
            final(self).wf(),
            (response_view(response), final(self)@) == after_poll(old(self)@, report@),
    {
        let current = match self.to_run.pop_front() {
            Some(case) => case,
            None => {
                assert(self@ =~= old(self)@);
                return None;
            },
        };
        assert(current@ == old(self)@[0]);
        assert(self@ =~= old(self)@.drop_first());
        let id = current.id();
        if !current.has_started() || !current.has_finished(report.exit) {
            self.to_run.push_front(current);
            assert(self@ =~= old(self)@);
            return None;
        }
        let status = current.get_results(Some(report));
        Some(RunResponse { id, status })
    }
}

} // verus!

//! The front end's handle on the worker: it words the requests, buffers the
//! responses that arrived, and hands them out when asked.

use crate::common::{
    cases_view, responses_view, RequestModel, ResponseModel, RunDetails, RunDetailsModel,
    RunRequest, RunResponse, StatusModel, TestCase, TestCaseStatus, SUITE_ID,
};
use vstd::prelude::*;

verus! {

/// The message that reports a worker that is gone.
pub open spec fn dead_worker_message() -> Seq<char> {
    "Thread which runs the test cases has died"@
}

/// The single response that reports a worker that is gone.
pub open spec fn dead_worker_updates() -> Seq<ResponseModel> {
    seq![
        ResponseModel {
            id: SUITE_ID,
            status: StatusModel::Error { err_msg: dead_worker_message() },
        },
    ]
}

/// Whether every response names a test case below `bound`.
pub open spec fn ids_below(responses: Seq<ResponseModel>, bound: int) -> bool {
    forall|i: int| 0 <= i < responses.len() ==> (#[trigger] responses[i]).id < bound
}

/// The front end's handle on the worker.
#[derive(Debug)]
pub struct CodeRunner {
    worker_alive: bool,
    incoming: Vec<RunResponse>,
}

/// What a `CodeRunner` is: whether its worker still runs, and the responses
/// that arrived and were not handed out yet, oldest first.
pub ghost struct CodeRunnerModel {
    pub worker_alive: bool,
    pub incoming: Seq<ResponseModel>,
}

impl CodeRunnerModel {
    /// What the next call of `get_updates` hands out: the report of a dead
    /// worker, or everything that is buffered.
    pub open spec fn updates(self) -> Seq<ResponseModel> {
        if self.worker_alive {
            self.incoming
        } else {
            dead_worker_updates()
        }
    }

    /// The handle after a call of `get_updates`: the buffer of a living
    /// worker is empty, that of a dead one is not touched.
    pub open spec fn drained(self) -> CodeRunnerModel {
        if self.worker_alive {
            CodeRunnerModel { incoming: Seq::empty(), ..self }
        } else {
            self
        }
    }
}

impl View for CodeRunner {
    type V = CodeRunnerModel;

    closed spec fn view(&self) -> CodeRunnerModel {
        CodeRunnerModel {
            worker_alive: self.worker_alive,
            incoming: responses_view(self.incoming@),
        }
    }
}

impl Default for CodeRunner {
    /// A handle on a living worker, with nothing buffered.
    fn default() -> (runner: Self)
        ensures
            runner@ == (CodeRunnerModel { worker_alive: true, incoming: Seq::empty() }),
    {
        let runner = CodeRunner { worker_alive: true, incoming: Vec::new() };
        assert(responses_view(runner.incoming@) =~= Seq::empty());
        runner
    }
}

impl CodeRunner {
    /// The request that submits a run of the given cases.
    pub fn please_run(
        &self,
        test_cases: Vec<TestCase>,
        compile_script: String,
        run_script: String,
    ) -> (request: RunRequest)
        ensures
            request@ == RequestModel::PleaseRun(
                RunDetailsModel {
                    compile_script: compile_script@,
                    run_script: run_script@,
                    test_cases: cases_view(test_cases@),
                },
            ),
    {
        RunRequest::PleaseRun(RunDetails { compile_script, run_script, test_cases })
    }

    /// The request that stops whatever is running.
    pub fn please_stop(&self) -> (request: RunRequest)
        ensures
            request@ == RequestModel::PleaseStop,
    {
        RunRequest::PleaseStop
    }

    /// Whether the worker was still running when last looked at.
    pub fn worker_alive(&self) -> (alive: bool)
        ensures
            alive == self@.worker_alive,
    {
        self.worker_alive
    }

    /// Records that the worker has terminated. It stays so.
    pub fn worker_died(&mut self)
        ensures
            final(self)@ == (CodeRunnerModel { worker_alive: false, ..old(self)@ }),
    {
        self.worker_alive = false;
    }

    /// Buffers a response that arrived from the worker, behind those that
    /// arrived before it.
    pub fn receive(&mut self, response: RunResponse)
        ensures
            final(self)@ == (CodeRunnerModel {
                incoming: old(self)@.incoming.push(response@),
                ..old(self)@
            }),
    {
        self.incoming.push(response);
        assert(responses_view(self.incoming@) =~= responses_view(old(self).incoming@).push(
            response@,
        ));
    }

    /// Whether every response that the next call of `get_updates` hands out
    /// names a test case below `bound`.
    pub fn updates_below(&self, bound: usize) -> (below: bool)
        ensures
            below == ids_below(self@.updates(), bound as int),
    {
        if !self.worker_alive {
            assert(dead_worker_updates().len() == 1 && dead_worker_updates()[0].id == SUITE_ID);
            return SUITE_ID < bound;
        }
        let mut i: usize = 0;
        while i < self.incoming.len()
            invariant
                i <= self.incoming.len(),
                self.worker_alive,
                forall|k: int| 0 <= k < i ==> (#[trigger] self@.updates()[k]).id < bound,
            decreases self.incoming.len() - i,
        {
            if self.incoming[i].id >= bound {
                assert(self@.updates()[i as int].id >= bound);
                return false;
            }
            i += 1;
        }
        true
    }

    /// Hands out what arrived since the last call, oldest first. Once the
    /// worker is gone, every call gives the one response that says so, under
    /// the suite's id, and the buffer is not read.
    pub fn get_updates(&mut self) -> (updates: Vec<RunResponse>)
        ensures
            responses_view(updates@) == old(self)@.updates(),
            final(self)@ == old(self)@.drained(),
    {
        if !self.worker_alive {
            let status = TestCaseStatus::Error {
                err_msg: "Thread which runs the test cases has died".to_string(),
            };
            let updates = vec![RunResponse { id: SUITE_ID, status }];
            assert(responses_view(updates@) =~= dead_worker_updates());
            return updates;
        }
        let mut updates: Vec<RunResponse> = Vec::new();
        std::mem::swap(&mut updates, &mut self.incoming);
        assert(responses_view(self.incoming@) =~= Seq::empty());
        updates
    }
}

/// Asking a living worker's handle for updates twice in a row, with nothing
/// arriving in between, gives nothing the second time.
pub proof fn lemma_second_drain_is_empty(runner: CodeRunnerModel)
    requires
        runner.worker_alive,
    ensures
        runner.drained().updates() == Seq::<ResponseModel>::empty(),
        runner.drained().drained() == runner.drained(),
{
}

/// Once the worker is gone, every request for updates reports it again.
pub proof fn lemma_dead_worker_is_reported_forever(runner: CodeRunnerModel)
    requires
        !runner.worker_alive,
    ensures
        runner.updates() == dead_worker_updates(),
        runner.drained() == runner,
{
}

} // verus!

//! The suite of the selected problem: its test cases, one status for each,
//! and the handle on the worker that runs them.

use crate::common::{
    cases_view, clone_cases, responses_view, statuses_view, Problem, ProblemModel, RequestModel,
    ResponseModel, RunDetailsModel, RunRequest, RunResponse, StatusModel, TestCase, TestCaseModel,
    TestCaseStatus,
};
use crate::data::{
    generate_stress_tests_from, has_stress_tests, has_stress_tests_for, stress_tests_from,
};
use crate::test_runner::code_runner::{ids_below, CodeRunner, CodeRunnerModel};
use vstd::prelude::*;

verus! {

/// The statuses after one response: the entry of the test case that it
/// names is overwritten.
pub open spec fn apply_response(statuses: Seq<StatusModel>, response: ResponseModel) -> Seq<
    StatusModel,
> {
    if response.id < statuses.len() {
        statuses.update(response.id as int, response.status)
    } else {
        statuses
    }
}

/// The statuses after a sequence of responses, applied oldest first.
pub open spec fn apply_all(statuses: Seq<StatusModel>, responses: Seq<ResponseModel>) -> Seq<
    StatusModel,
>
    decreases responses.len(),
{
    if responses.len() == 0 {
        statuses
    } else {
        apply_response(apply_all(statuses, responses.drop_last()), responses.last())
    }
}

/// `n` statuses of cases that were not run.
pub open spec fn all_not_run(n: nat) -> Seq<StatusModel> {
    Seq::new(n, |i: int| StatusModel::NotRun)
}

/// The highest id among the test cases, 0 where there is none.
pub open spec fn highest_id(cases: Seq<TestCaseModel>) -> usize
    decreases cases.len(),
{
    if cases.len() == 0 {
        0
    } else {
        let before = highest_id(cases.drop_last());
        if cases.last().id > before {
            cases.last().id
        } else {
            before
        }
    }
}

/// The id that the first stress test of a problem gets: the one after the
/// highest declared id, and 0 for a problem without a declared case.
pub open spec fn next_id(declared: Seq<TestCaseModel>) -> usize {
    if declared.len() == 0 {
        0
    } else {
        (highest_id(declared) + 1) as usize
    }
}

/// The test cases of a problem once it is loaded: its declared cases,
/// followed by its stress tests, whose ids continue after the highest
/// declared id.
pub open spec fn loaded_cases(name: Seq<char>, declared: Seq<TestCaseModel>) -> Seq<
    TestCaseModel,
> {
    declared + stress_tests_from(name, next_id(declared))
}

/// Whether the ids of the problem's stress tests fit: where stress tests
/// are generated for it, three more ids follow its highest id.
pub open spec fn leaves_room(problem: ProblemModel) -> bool {
    has_stress_tests(problem.name) && problem.test_cases.len() > 0 ==> highest_id(
        problem.test_cases,
    ) <= usize::MAX - 3
}

/// Whether each test case has its place in the list as its id, so that the
/// status of a test case stands at its id.
pub open spec fn ids_are_indices(cases: Seq<TestCaseModel>) -> bool {
    forall|i: int| 0 <= i < cases.len() ==> (#[trigger] cases[i]).id == i
}

/// Where each id is its index, the highest id of a list that is not empty
/// is the one of its last case.
pub proof fn lemma_highest_index(cases: Seq<TestCaseModel>)
    requires
        ids_are_indices(cases),
        cases.len() > 0,
    ensures
        highest_id(cases) == cases.len() - 1,
    decreases cases.len(),
{
    let front = cases.drop_last();
    assert forall|i: int| 0 <= i < front.len() implies (#[trigger] front[i]).id == i by {
        assert(front[i] == cases[i]);
    }
    assert(cases[cases.len() - 1].id == cases.len() - 1);
    if front.len() > 0 {
        lemma_highest_index(front);
    }
}

/// Loading keeps the ids in step with the places: where each declared test
/// case has its index as its id, so has each loaded test case, the stress
/// tests included. For a problem without a declared case the first stress
/// test has the id 0.
pub proof fn lemma_loaded_ids_are_indices(problem: ProblemModel)
    requires
        ids_are_indices(problem.test_cases),
        leaves_room(problem),
    ensures
        ids_are_indices(loaded_cases(problem.name, problem.test_cases)),
{
    let declared = problem.test_cases;
    if declared.len() > 0 {
        lemma_highest_index(declared);
    }
    assert(has_stress_tests(problem.name) ==> next_id(declared) == declared.len());
    let loaded = loaded_cases(problem.name, declared);
    assert forall|i: int| 0 <= i < loaded.len() implies (#[trigger] loaded[i]).id == i by {
        if i < declared.len() {
            assert(loaded[i] == declared[i]);
        } else {
            assert(loaded[i] == stress_tests_from(problem.name, next_id(declared))[i
                - declared.len()]);
        }
    }
}

/// The suite of the selected problem.
#[derive(Debug)]
pub struct TestSuite {
    new_test_cases_arrived: bool,
    test_cases: Vec<TestCase>,
    test_case_statuses: Vec<TestCaseStatus>,
    code_runner: CodeRunner,
}

/// What a `TestSuite` is.
pub ghost struct SuiteModel {
    /// Whether results arrived since the last check for changes.
    pub changed: bool,
    pub test_cases: Seq<TestCaseModel>,
    pub statuses: Seq<StatusModel>,
    pub runner: CodeRunnerModel,
}

impl SuiteModel {
    /// One status for each test case.
    pub open spec fn wf(self) -> bool {
        self.statuses.len() == self.test_cases.len()
    }

    /// One status for each test case, and each test case has its place in
    /// the list as its id: the status of the test case `id` stands at `id`.
    pub open spec fn indexed(self) -> bool {
        self.wf() && ids_are_indices(self.test_cases)
    }

    /// Every response that waits to be applied names a test case of the suite.
    pub open spec fn updates_in_range(self) -> bool {
        ids_below(self.runner.updates(), self.statuses.len() as int)
    }

    /// The suite after pulling the updates of its worker: each response
    /// overwrites the status of its test case, oldest first, and the suite
    /// remembers that something arrived.
    pub open spec fn pulled(self) -> SuiteModel {
        SuiteModel {
            changed: self.changed || self.runner.updates().len() > 0,
            test_cases: self.test_cases,
            statuses: apply_all(self.statuses, self.runner.updates()),
            runner: self.runner.drained(),
        }
    }
}

/// A suite that has one status for each test case still has after pulling
/// the updates of its worker, whatever they are.
pub proof fn lemma_pulled_keeps_one_status_per_case(suite: SuiteModel)
    requires
        suite.wf(),
    ensures
        suite.pulled().wf(),
{
    lemma_apply_all_len(suite.statuses, suite.runner.updates());
}

/// Applying responses keeps the number of statuses.
pub proof fn lemma_apply_all_len(statuses: Seq<StatusModel>, responses: Seq<ResponseModel>)
    ensures
        apply_all(statuses, responses).len() == statuses.len(),
    decreases responses.len(),
{
    if responses.len() > 0 {
        lemma_apply_all_len(statuses, responses.drop_last());
    }
}

impl View for TestSuite {
    type V = SuiteModel;

    closed spec fn view(&self) -> SuiteModel {
        SuiteModel {
            changed: self.new_test_cases_arrived,
            test_cases: cases_view(self.test_cases@),
            statuses: statuses_view(self.test_case_statuses@),
            runner: self.code_runner@,
        }
    }
}

fn not_run_statuses(n: usize) -> (statuses: Vec<TestCaseStatus>)
    ensures
        statuses_view(statuses@) == all_not_run(n as nat),
{
    let mut statuses: Vec<TestCaseStatus> = Vec::new();
    let mut i: usize = 0;
    while i < n
        invariant
            i <= n,
            statuses.len() == i,
            forall|k: int| 0 <= k < i ==> (#[trigger] statuses[k])@ == StatusModel::NotRun,
        decreases n - i,
    {
        statuses.push(TestCaseStatus::NotRun);
        i += 1;
    }
    assert(statuses_view(statuses@) =~= all_not_run(n as nat));
    statuses
}

fn clone_statuses(statuses: &Vec<TestCaseStatus>) -> (copy: Vec<TestCaseStatus>)
    ensures
        statuses_view(copy@) == statuses_view(statuses@),
{
    let mut copy: Vec<TestCaseStatus> = Vec::new();
    let mut i: usize = 0;
    while i < statuses.len()
        invariant
            i <= statuses.len(),
            copy.len() == i,
            forall|k: int| 0 <= k < i ==> (#[trigger] copy[k])@ == statuses[k]@,
        decreases statuses.len() - i,
    {
        copy.push(statuses[i].clone());
        i += 1;
    }
    assert(statuses_view(copy@) =~= statuses_view(statuses@));
    copy
}

fn highest_id_of(cases: &Vec<TestCase>) -> (highest: usize)
    ensures
        highest == highest_id(cases_view(cases@)),
        forall|i: int| 0 <= i < cases.len() ==> (#[trigger] cases[i]).id <= highest,
{
    let mut highest: usize = 0;
    let mut i: usize = 0;
    assert(cases_view(cases@).take(0) =~= Seq::empty());
    while i < cases.len()
        invariant
            i <= cases.len(),
            highest == highest_id(cases_view(cases@).take(i as int)),
            forall|k: int| 0 <= k < i ==> (#[trigger] cases[k]).id <= highest,
        decreases cases.len() - i,
    {
        assert(cases_view(cases@).take(i + 1).drop_last() =~= cases_view(cases@).take(i as int));
        if cases[i].id > highest {
            highest = cases[i].id;
        }
        i += 1;
    }
    assert(cases_view(cases@).take(cases.len() as int) =~= cases_view(cases@));
    highest
}

/// Whether the ids of the problem's stress tests fit: see `leaves_room`.
pub fn room_for_stress_tests(problem: &Problem) -> (room: bool)
    ensures
        room == leaves_room(problem@),
{
    !has_stress_tests_for(&problem.name) || problem.test_cases.len() == 0 || highest_id_of(
        &problem.test_cases,
    ) <= usize::MAX - 3
}

impl TestSuite {
    /// What a new suite is: no test cases, nothing arrived, a living worker.
    pub open spec fn new_model() -> SuiteModel {
        SuiteModel {
            changed: false,
            test_cases: Seq::empty(),
            statuses: Seq::empty(),
            runner: CodeRunnerModel { worker_alive: true, incoming: Seq::empty() },
        }
    }

    /// A suite without test cases, on a living worker.
    pub fn new() -> (suite: Self)
        ensures
            suite@ == Self::new_model(),
            suite@.wf(),
    {
        let suite = TestSuite {
            new_test_cases_arrived: false,
            test_cases: Vec::new(),
            test_case_statuses: Vec::new(),
            code_runner: CodeRunner::default(),
        };
        assert(suite@.test_cases =~= Seq::empty());
        assert(suite@.statuses =~= Seq::empty());
        suite
    }

    /// Whether the suite has one status for each test case.
    pub fn is_wf(&self) -> (wf: bool)
        ensures
            wf == self@.wf(),
    {
        self.test_case_statuses.len() == self.test_cases.len()
    }

    /// The number of test cases of the suite.
    pub fn number_of_tests(&self) -> (n: usize)
        ensures
            n == self@.test_cases.len(),
    {
        self.test_cases.len()
    }

    /// Buffers a response that arrived from the worker.
    pub fn receive(&mut self, response: RunResponse)
        ensures
            final(self)@ == (SuiteModel {
                runner: CodeRunnerModel {
                    incoming: old(self)@.runner.incoming.push(response@),
                    ..old(self)@.runner
                },
                ..old(self)@
            }),
    {
        self.code_runner.receive(response);
    }

    /// Records that the worker has terminated.
    pub fn worker_died(&mut self)
        ensures
            final(self)@ == (SuiteModel {
                runner: CodeRunnerModel { worker_alive: false, ..old(self)@.runner },
                ..old(self)@
            }),
    {
        self.code_runner.worker_died();
    }

    /// Whether the updates that wait can be applied: each names a test case
    /// of the suite.
    pub fn can_update(&self) -> (ok: bool)
        ensures
            ok == self@.updates_in_range(),
    {
        self.code_runner.updates_below(self.test_case_statuses.len())
    }

    /// Pulls the updates of the worker and overwrites the status of each
    /// test case that they name. Tells whether there was any update.
    pub fn update_test_cases(&mut self) -> (arrived: bool)
        requires
            old(self)@.updates_in_range(),
        ensures
            final(self)@ == old(self)@.pulled(),
            arrived == (old(self)@.runner.updates().len() > 0),
            old(self)@.wf() ==> final(self)@.wf(),
    {
        proof {
            lemma_apply_all_len(old(self)@.statuses, old(self)@.runner.updates());
        }
        let updates = self.code_runner.get_updates();
        if updates.len() == 0 {
            return false;
        }
        self.new_test_cases_arrived = true;
        let ghost pending = responses_view(updates@);
        let mut i: usize = 0;
        assert(pending.take(0) =~= Seq::empty());
        while i < updates.len()
            invariant
                i <= updates.len(),
                pending == responses_view(updates@),
                self.new_test_cases_arrived,
                self.test_cases == old(self).test_cases,
                self.code_runner@ == old(self)@.runner.drained(),
                ids_below(pending, old(self)@.statuses.len() as int),
                self.test_case_statuses.len() == old(self)@.statuses.len(),
                statuses_view(self.test_case_statuses@) == apply_all(
                    old(self)@.statuses,
                    pending.take(i as int),
                ),
            decreases updates.len() - i,
        {
            let id = updates[i].id;
            let status = updates[i].status.clone();
            assert(pending[i as int] == updates[i as int]@);
            assert(pending.take(i + 1).drop_last() =~= pending.take(i as int));
            let ghost before = statuses_view(self.test_case_statuses@);
            self.test_case_statuses.set(id, status);
            assert(statuses_view(self.test_case_statuses@) =~= before.update(id as int, status@));
            i += 1;
        }
        assert(pending.take(updates.len() as int) =~= pending);
        true
    }

    /// The statuses of all test cases, after pulling the worker's updates.
    pub fn get_test_cases(&mut self) -> (statuses: Vec<TestCaseStatus>)
        requires
            old(self)@.updates_in_range(),
        ensures
            final(self)@ == old(self)@.pulled(),
            statuses_view(statuses@) == final(self)@.statuses,
    {
        self.update_test_cases();
        clone_statuses(&self.test_case_statuses)
    }

    /// The status of the `n`-th test case, after pulling the worker's updates.
    pub fn get_nth_test_case(&mut self, n: usize) -> (status: TestCaseStatus)
        requires
            old(self)@.updates_in_range(),
            n < old(self)@.statuses.len(),
        ensures
            final(self)@ == old(self)@.pulled(),
            status@ == final(self)@.statuses[n as int],
    {
        proof {
            lemma_apply_all_len(old(self)@.statuses, old(self)@.runner.updates());
        }
        self.update_test_cases();
        self.test_case_statuses[n].clone()
    }

    /// Pulls the worker's updates, then tells whether results arrived since
    /// the last call, and forgets it.
    pub fn check_for_changes(&mut self) -> (changes: bool)
        requires
            old(self)@.updates_in_range(),
        ensures
            changes == old(self)@.pulled().changed,
            final(self)@ == (SuiteModel { changed: false, ..old(self)@.pulled() }),
    {
        self.update_test_cases();
        let changes = self.new_test_cases_arrived;
        self.new_test_cases_arrived = false;
        changes
    }

    /// Starts a run: every status goes back to `NotRun`, and the request
    /// that submits all test cases of the suite is handed back for sending.
    pub fn run(&mut self, compile_script: String, run_script: String) -> (request: RunRequest)
        ensures
            final(self)@ == (SuiteModel {
                statuses: all_not_run(old(self)@.test_cases.len()),
                ..old(self)@
            }),
            final(self)@.wf(),
            old(self)@.indexed() ==> final(self)@.indexed(),
            request@ == RequestModel::PleaseRun(
                RunDetailsModel {
                    compile_script: compile_script@,
                    run_script: run_script@,
                    test_cases: old(self)@.test_cases,
                },
            ),
    {
        self.reset_test_cases();
        self.code_runner.please_run(clone_cases(&self.test_cases), compile_script, run_script)
    }

    /// The request that cancels the run in progress.
    pub fn stop(&self) -> (request: RunRequest)
        ensures
            request@ == RequestModel::PleaseStop,
    {
        self.code_runner.please_stop()
    }

    /// Loads a problem: its declared test cases, then its stress tests, and
    /// `NotRun` as the status of each.
    pub fn set_test_cases_from(&mut self, problem: &Problem)
        requires
            leaves_room(problem@),
        ensures
            final(self)@ == (SuiteModel {
                test_cases: loaded_cases(problem.name@, cases_view(problem.test_cases@)),
                statuses: all_not_run(
                    loaded_cases(problem.name@, cases_view(problem.test_cases@)).len(),
                ),
                ..old(self)@
            }),
            final(self)@.wf(),
            ids_are_indices(problem@.test_cases) ==> final(self)@.indexed(),
    {
        let mut test_cases = clone_cases(&problem.test_cases);
        let mut stress_tests = if has_stress_tests_for(&problem.name) {
            let first_id = if problem.test_cases.len() == 0 {
                0
            } else {
                highest_id_of(&problem.test_cases) + 1
            };
            generate_stress_tests_from(&problem.name, first_id)
        } else {
            Vec::new()
        };
        proof {
            assert(cases_view(stress_tests@) =~= stress_tests_from(
                problem.name@,
                next_id(problem@.test_cases),
            ));
            if ids_are_indices(problem@.test_cases) {
                lemma_loaded_ids_are_indices(problem@);
            }
        }
        let ghost declared = cases_view(test_cases@);
        let ghost generated = cases_view(stress_tests@);
        test_cases.append(&mut stress_tests);
        assert(cases_view(test_cases@) =~= declared + generated);
        let n = test_cases.len();
        self.test_cases = test_cases;
        self.test_case_statuses = not_run_statuses(n);
    }

    fn reset_test_cases(&mut self)
        ensures
            final(self)@ == (SuiteModel {
                statuses: all_not_run(old(self)@.test_cases.len()),
                ..old(self)@
            }),
    {
        let n = self.number_of_tests();
        self.test_case_statuses = not_run_statuses(n);
    }
}

} // verus!

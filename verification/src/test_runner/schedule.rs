//! What holds of the statuses that a suite shows while the worker schedules
//! its run: at most one case is running, whatever the worker sends and
//! whenever the suite pulls it; and within a run of a suite whose test cases
//! have their places as their ids, the worker's queue and the statuses
//! agree, each response finds its status, and each change of a status is a
//! step that a status may take.

use crate::common::{ResponseModel, RunDetailsModel, StatusModel};
use crate::test_runner::remote_runner::{
    after_poll, after_spawn, cancellations, fresh_queue, next_step, queue_wf, suite_failure,
    ProgressModel,
};
use crate::test_runner::runnable_test_case::{ReportModel, RunnableModel};
use crate::test_runner::code_runner::{dead_worker_updates, ids_below};
use crate::test_suite::{
    all_not_run, apply_all, apply_response, lemma_apply_all_len, SuiteModel,
};
use vstd::prelude::*;

verus! {

/// The steps that the status of a test case may take within a run: from
/// `NotRun` to `Running` and from there to `Pass`, `Fail` or `Error`; from
/// `NotRun` straight to `Error`, where the case could not be started; and
/// from `NotRun` to `Cancelled`.
pub open spec fn legal_step(before: StatusModel, after: StatusModel) -> bool {
    match before {
        StatusModel::NotRun => after is Running || after is Error || after is Cancelled,
        StatusModel::Running => after is Pass || after is Fail || after is Error,
        _ => false,
    }
}

/// No two queued cases have the same id.
pub open spec fn distinct_ids(queue: Seq<RunnableModel>) -> bool {
    forall|i: int, j: int|
        0 <= i < j < queue.len() ==> (#[trigger] queue[i]).id != (#[trigger] queue[j]).id
}

/// Whether a queued case has the id `id`.
pub open spec fn is_queued(queue: Seq<RunnableModel>, id: int) -> bool {
    exists|i: int| 0 <= i < queue.len() && (#[trigger] queue[i]).id == id
}

/// The queue of the worker and the statuses that the suite shows agree:
/// the queue is well formed and names each test case once; each queued case
/// shows `Running` if it was started and `NotRun` if not; and no status is
/// `Running` but that of a started case at the front of the queue.
pub open spec fn agrees(queue: Seq<RunnableModel>, statuses: Seq<StatusModel>) -> bool {
    &&& queue_wf(queue)
    &&& distinct_ids(queue)
    &&& forall|i: int|
        0 <= i < queue.len() ==> (#[trigger] queue[i]).id < statuses.len()
            && statuses[queue[i].id as int] == queue[i].reported()
    &&& forall|j: int|
        0 <= j < statuses.len() && (#[trigger] statuses[j]) is Running ==> queue.len() > 0
            && queue[0].started && queue[0].id == j
}

/// At most one status is `Running`.
pub open spec fn at_most_one_running(statuses: Seq<StatusModel>) -> bool {
    forall|i: int, j: int|
        0 <= i < statuses.len() && 0 <= j < statuses.len() && (#[trigger] statuses[i]) is Running
            && (#[trigger] statuses[j]) is Running ==> i == j
}

/// While the queue and the statuses agree, at most one test case of the
/// suite is running.
pub proof fn lemma_at_most_one_running(queue: Seq<RunnableModel>, statuses: Seq<StatusModel>)
    requires
        agrees(queue, statuses),
    ensures
        at_most_one_running(statuses),
{
}

/// An empty queue agrees with statuses none of which is `Running`: so it is
/// before the first run, and right after the statuses were reset.
pub proof fn lemma_idle_agrees(statuses: Seq<StatusModel>)
    requires
        forall|j: int| 0 <= j < statuses.len() ==> !((#[trigger] statuses[j]) is Running),
    ensures
        agrees(Seq::<RunnableModel>::empty(), statuses),
{
}

/// A run that starts on statuses that were all reset agrees with them, where
/// its test cases have distinct ids that index the statuses. A run whose
/// compilation failed leaves an empty queue and one `Error`, at the suite's
/// id, which is a step that status may take; no case is running.
pub proof fn lemma_new_run_agrees(details: RunDetailsModel, n: nat, message: Seq<char>)
    requires
        forall|i: int|
            0 <= i < details.test_cases.len() ==> (#[trigger] details.test_cases[i]).id < n,
        forall|i: int, j: int|
            0 <= i < j < details.test_cases.len() ==> (#[trigger] details.test_cases[i]).id != (
            #[trigger] details.test_cases[j]).id,
    ensures
        agrees(fresh_queue(details), all_not_run(n)),
        agrees(
            Seq::<RunnableModel>::empty(),
            apply_response(all_not_run(n), suite_failure(message)),
        ),
        n > 0 ==> legal_step(
            all_not_run(n)[suite_failure(message).id as int],
            suite_failure(message).status,
        ),
{
    let queue = fresh_queue(details);
    assert forall|i: int| 0 <= i < queue.len() implies (#[trigger] queue[i]).id
        < all_not_run(n).len() && all_not_run(n)[queue[i].id as int] == queue[i].reported() by {
        assert(queue[i].id == details.test_cases[i].id);
    }
    assert forall|i: int, j: int| 0 <= i < j < queue.len() implies (#[trigger] queue[i]).id != (
    #[trigger] queue[j]).id by {
        assert(queue[i].id == details.test_cases[i].id);
        assert(queue[j].id == details.test_cases[j].id);
    }
}

/// Starting the front case keeps the agreement. Where the case cannot be
/// started, its status goes from `NotRun` to `Error`, which is a step that a
/// status may take; otherwise nothing is reported and the queue stays.
pub proof fn lemma_next_step_agrees(queue: Seq<RunnableModel>, statuses: Seq<StatusModel>)
    requires
        agrees(queue, statuses),
    ensures
        match next_step(queue).0 {
            ProgressModel::Report(response) => {
                &&& response.id < statuses.len()
                &&& legal_step(statuses[response.id as int], response.status)
                &&& agrees(next_step(queue).1, apply_response(statuses, response))
            },
            _ => next_step(queue).1 == queue,
        },
{
    if let ProgressModel::Report(response) = next_step(queue).0 {
        lemma_drop_front_agrees(queue, statuses, response);
    }
}

/// Recording a spawn keeps the agreement, and what is reported is a step
/// that the status may take: from `NotRun` to `Running` for a spawned
/// process, from `NotRun` to `Error` for a refused one.
pub proof fn lemma_after_spawn_agrees(
    queue: Seq<RunnableModel>,
    statuses: Seq<StatusModel>,
    outcome: Result<(), Seq<char>>,
)
    requires
        agrees(queue, statuses),
    ensures
        match after_spawn(queue, outcome).0 {
            Some(response) => {
                &&& response.id < statuses.len()
                &&& legal_step(statuses[response.id as int], response.status)
                &&& agrees(after_spawn(queue, outcome).1, apply_response(statuses, response))
            },
            None => after_spawn(queue, outcome).1 == queue,
        },
{
    if let Some(response) = after_spawn(queue, outcome).0 {
        match outcome {
            Ok(_) => {
                let after = after_spawn(queue, outcome).1;
                let shown = apply_response(statuses, response);
                assert forall|i: int| 0 <= i < after.len() implies (#[trigger] after[i]).id
                    < shown.len() && shown[after[i].id as int] == after[i].reported() by {
                    if i > 0 {
                        assert(after[i] == queue[i]);
                        assert(queue[0].id != queue[i].id);
                    }
                }
                assert forall|i: int, j: int| 0 <= i < j < after.len() implies (
                #[trigger] after[i]).id != (#[trigger] after[j]).id by {
                    assert(after[i].id == queue[i].id);
                    assert(after[j].id == queue[j].id);
                }
                assert forall|i: int| 0 <= i < after.len() implies (#[trigger] after[i]).error
                    is None && (i > 0 ==> !after[i].started) by {
                    assert(queue[i].error is None);
                    if i > 0 {
                        assert(after[i] == queue[i]);
                    }
                }
                assert forall|j: int|
                    0 <= j < shown.len() && (#[trigger] shown[j]) is Running implies after.len() > 0
                    && after[0].started && after[0].id == j by {
                    if j != queue[0].id {
                        assert(shown[j] == statuses[j]);
                    }
                }
            },
            Err(_) => {
                lemma_drop_front_agrees(queue, statuses, response);
            },
        }
    }
}

/// Recording a poll keeps the agreement, and what is reported for a process
/// that has exited is a step that the status may take: from `Running` to
/// `Pass`, `Fail` or `Error`.
pub proof fn lemma_after_poll_agrees(
    queue: Seq<RunnableModel>,
    statuses: Seq<StatusModel>,
    report: ReportModel,
)
    requires
        agrees(queue, statuses),
    ensures
        match after_poll(queue, report).0 {
            Some(response) => {
                &&& response.id < statuses.len()
                &&& legal_step(statuses[response.id as int], response.status)
                &&& response.status.is_terminal()
                &&& agrees(after_poll(queue, report).1, apply_response(statuses, response))
            },
            None => after_poll(queue, report).1 == queue,
        },
{
    if let Some(response) = after_poll(queue, report).0 {
        assert(queue[0].error is None);
        lemma_drop_front_agrees(queue, statuses, response);
    }
}

/// Removing the front case with a final status for it keeps the agreement.
proof fn lemma_drop_front_agrees(
    queue: Seq<RunnableModel>,
    statuses: Seq<StatusModel>,
    response: ResponseModel,
)
    requires
        agrees(queue, statuses),
        queue.len() > 0,
        response.id == queue[0].id,
        !(response.status is Running),
    ensures
        agrees(queue.drop_first(), apply_response(statuses, response)),
{
    let after = queue.drop_first();
    let shown = apply_response(statuses, response);
    assert forall|i: int| 0 <= i < after.len() implies (#[trigger] after[i]).id < shown.len()
        && shown[after[i].id as int] == after[i].reported() by {
        assert(after[i] == queue[i + 1]);
        assert(queue[0].id != queue[i + 1].id);
    }
    assert forall|i: int, j: int| 0 <= i < j < after.len() implies (#[trigger] after[i]).id != (
    #[trigger] after[j]).id by {
        assert(after[i] == queue[i + 1]);
        assert(after[j] == queue[j + 1]);
    }
    assert forall|i: int| 0 <= i < after.len() implies (#[trigger] after[i]).error is None && (i
        > 0 ==> !after[i].started) by {
        assert(after[i] == queue[i + 1]);
    }
    assert forall|j: int| 0 <= j < shown.len() && (#[trigger] shown[j]) is Running implies false by {
        if j != queue[0].id {
            assert(shown[j] == statuses[j]);
        }
    }
}

/// What the statuses are after every queued case was cancelled: `Cancelled`
/// for exactly the queued cases, and what they were for all others.
pub proof fn lemma_cancellations_applied(queue: Seq<RunnableModel>, statuses: Seq<StatusModel>)
    ensures
        apply_all(statuses, cancellations(queue)).len() == statuses.len(),
        forall|j: int|
            0 <= j < statuses.len() ==> (#[trigger] apply_all(statuses, cancellations(queue))[j])
                == if is_queued(queue, j) {
                StatusModel::Cancelled
            } else {
                statuses[j]
            },
    decreases queue.len(),
{
    if queue.len() > 0 {
        let shorter = queue.drop_last();
        assert(cancellations(queue).drop_last() =~= cancellations(shorter));
        lemma_cancellations_applied(shorter, statuses);
        let before = apply_all(statuses, cancellations(shorter));
        let last = queue.last();
        assert(apply_all(statuses, cancellations(queue)) == apply_response(
            before,
            ResponseModel { id: last.id, status: StatusModel::Cancelled },
        ));
        assert forall|j: int| 0 <= j < statuses.len() implies (#[trigger] apply_all(
            statuses,
            cancellations(queue),
        )[j]) == if is_queued(queue, j) {
            StatusModel::Cancelled
        } else {
            statuses[j]
        } by {
            if j == last.id {
                assert(queue[queue.len() - 1].id == j);
            } else if is_queued(shorter, j) {
                let i = choose|i: int| 0 <= i < shorter.len() && (#[trigger] shorter[i]).id == j;
                assert(queue[i].id == j);
            } else if is_queued(queue, j) {
                let i = choose|i: int| 0 <= i < queue.len() && (#[trigger] queue[i]).id == j;
                assert(shorter[i].id == j);
            }
        }
    }
}

/// Cancelling a run keeps the agreement: the queue is empty and no case is
/// running. Where no process is in flight, each queued case goes from
/// `NotRun` to `Cancelled`, which is a step that a status may take.
pub proof fn lemma_abort_agrees(queue: Seq<RunnableModel>, statuses: Seq<StatusModel>)
    requires
        agrees(queue, statuses),
    ensures
        agrees(Seq::<RunnableModel>::empty(), apply_all(statuses, cancellations(queue))),
        queue.len() == 0 || !queue[0].started ==> forall|i: int|
            0 <= i < queue.len() ==> legal_step(
                statuses[(#[trigger] queue[i]).id as int],
                StatusModel::Cancelled,
            ),
{
    lemma_cancellations_applied(queue, statuses);
    let shown = apply_all(statuses, cancellations(queue));
    assert forall|j: int| 0 <= j < shown.len() implies !((#[trigger] shown[j]) is Running) by {
        if !is_queued(queue, j) {
            assert(shown[j] == statuses[j]);
            if statuses[j] is Running {
                assert(queue[0].id == j);
            }
        }
    }
    if queue.len() == 0 || !queue[0].started {
        assert forall|i: int| 0 <= i < queue.len() implies legal_step(
            statuses[(#[trigger] queue[i]).id as int],
            StatusModel::Cancelled,
        ) by {
            assert(!queue[i].started);
        }
    }
}

/// What happens at the worker.
pub ghost enum WorkerEvent {
    /// A request to stop was handled.
    Stop,
    /// A run was taken up; `failure` is the message of a compilation that
    /// failed.
    Run { details: RunDetailsModel, failure: Option<Seq<char>> },
    /// The next step for the front case was decided.
    Advance,
    /// The spawn of the front case ended.
    Spawned { outcome: Result<(), Seq<char>> },
    /// The process of the front case was polled.
    Polled { report: ReportModel },
}

/// The responses that the worker sends at an event, in the order in which
/// it sends them.
pub open spec fn sent(queue: Seq<RunnableModel>, event: WorkerEvent) -> Seq<ResponseModel> {
    match event {
        WorkerEvent::Stop => cancellations(queue),
        WorkerEvent::Run { details, failure } => match failure {
            Some(message) => cancellations(queue).push(suite_failure(message)),
            None => cancellations(queue),
        },
        WorkerEvent::Advance => match next_step(queue).0 {
            ProgressModel::Report(response) => seq![response],
            _ => Seq::empty(),
        },
        WorkerEvent::Spawned { outcome } => match after_spawn(queue, outcome).0 {
            Some(response) => seq![response],
            None => Seq::empty(),
        },
        WorkerEvent::Polled { report } => match after_poll(queue, report).0 {
            Some(response) => seq![response],
            None => Seq::empty(),
        },
    }
}

/// The queue of the worker after an event.
pub open spec fn queue_after(queue: Seq<RunnableModel>, event: WorkerEvent) -> Seq<RunnableModel> {
    match event {
        WorkerEvent::Stop => Seq::empty(),
        WorkerEvent::Run { details, failure } => match failure {
            Some(_) => Seq::empty(),
            None => fresh_queue(details),
        },
        WorkerEvent::Advance => next_step(queue).1,
        WorkerEvent::Spawned { outcome } => after_spawn(queue, outcome).1,
        WorkerEvent::Polled { report } => after_poll(queue, report).1,
    }
}

/// The queue of the worker after a sequence of events, oldest first.
pub open spec fn queue_after_all(queue: Seq<RunnableModel>, events: Seq<WorkerEvent>) -> Seq<
    RunnableModel,
>
    decreases events.len(),
{
    if events.len() == 0 {
        queue
    } else {
        queue_after(queue_after_all(queue, events.drop_last()), events.last())
    }
}

/// All that the worker sends over a sequence of events, in the order in
/// which it sends it.
pub open spec fn sent_all(queue: Seq<RunnableModel>, events: Seq<WorkerEvent>) -> Seq<
    ResponseModel,
>
    decreases events.len(),
{
    if events.len() == 0 {
        Seq::empty()
    } else {
        sent_all(queue, events.drop_last()) + sent(
            queue_after_all(queue, events.drop_last()),
            events.last(),
        )
    }
}

/// The queue is well formed, and no status is `Running` but that of a
/// started case at the front of the queue. This asks nothing of the ids: it
/// holds as well where two test cases share an id or an id names no status.
pub open spec fn only_front_runs(queue: Seq<RunnableModel>, statuses: Seq<StatusModel>) -> bool {
    &&& queue_wf(queue)
    &&& forall|j: int|
        0 <= j < statuses.len() && (#[trigger] statuses[j]) is Running ==> queue.len() > 0
            && queue[0].started && queue[0].id == j
}

/// Statuses that were reset hold no `Running`, whatever the worker has
/// queued: a run or a load of the suite keeps `only_front_runs`.
pub proof fn lemma_reset_keeps_front(queue: Seq<RunnableModel>, n: nat)
    requires
        queue_wf(queue),
    ensures
        only_front_runs(queue, all_not_run(n)),
{
}

/// Applying one response after others is applying all of them.
pub proof fn lemma_apply_all_push(
    statuses: Seq<StatusModel>,
    responses: Seq<ResponseModel>,
    response: ResponseModel,
)
    ensures
        apply_all(statuses, responses.push(response)) == apply_response(
            apply_all(statuses, responses),
            response,
        ),
{
    assert(responses.push(response).drop_last() =~= responses);
}

/// Applying two runs of responses one after the other is applying them as
/// one run.
pub proof fn lemma_apply_all_add(
    statuses: Seq<StatusModel>,
    first: Seq<ResponseModel>,
    second: Seq<ResponseModel>,
)
    ensures
        apply_all(statuses, first + second) == apply_all(apply_all(statuses, first), second),
    decreases second.len(),
{
    if second.len() == 0 {
        assert(first + second =~= first);
    } else {
        assert((first + second).drop_last() =~= first + second.drop_last());
        lemma_apply_all_add(statuses, first, second.drop_last());
    }
}

/// What the worker sends at one event leaves no status `Running` but that
/// of a started case at the front of its queue.
pub proof fn lemma_event_keeps_front(
    queue: Seq<RunnableModel>,
    statuses: Seq<StatusModel>,
    event: WorkerEvent,
)
    requires
        only_front_runs(queue, statuses),
    ensures
        only_front_runs(queue_after(queue, event), apply_all(statuses, sent(queue, event))),
{
    let after = queue_after(queue, event);
    let shown = apply_all(statuses, sent(queue, event));
    lemma_apply_all_len(statuses, sent(queue, event));
    match event {
        WorkerEvent::Stop => {
            lemma_cancellations_applied(queue, statuses);
            assert forall|j: int| 0 <= j < shown.len() implies !((#[trigger] shown[j]) is Running) by {
                if !is_queued(queue, j) && statuses[j] is Running {
                    assert(queue[0].id == j);
                }
            }
        },
        WorkerEvent::Run { details, failure } => {
            lemma_cancellations_applied(queue, statuses);
            let cancelled = apply_all(statuses, cancellations(queue));
            assert forall|j: int| 0 <= j < cancelled.len() implies !((#[trigger] cancelled[j])
                is Running) by {
                if !is_queued(queue, j) && statuses[j] is Running {
                    assert(queue[0].id == j);
                }
            }
            if let Some(message) = failure {
                lemma_apply_all_push(statuses, cancellations(queue), suite_failure(message));
            }
            assert forall|j: int| 0 <= j < shown.len() implies !((#[trigger] shown[j]) is Running) by {
                if shown[j] != cancelled[j] {
                    assert(shown[j] is Error);
                }
            }
            assert forall|i: int| 0 <= i < after.len() implies (#[trigger] after[i]).error is None
                && !after[i].started by {}
        },
        WorkerEvent::Advance => {
            if let ProgressModel::Report(response) = next_step(queue).0 {
                lemma_apply_all_push(statuses, Seq::empty(), response);
                assert(seq![response] =~= Seq::<ResponseModel>::empty().push(response));
                lemma_front_leaves(queue, statuses, response);
            }
        },
        WorkerEvent::Spawned { outcome } => {
            if let Some(response) = after_spawn(queue, outcome).0 {
                lemma_apply_all_push(statuses, Seq::empty(), response);
                assert(seq![response] =~= Seq::<ResponseModel>::empty().push(response));
                match outcome {
                    Ok(_) => {
                        assert forall|i: int| 0 <= i < after.len() implies (
                        #[trigger] after[i]).error is None && (i > 0 ==> !after[i].started) by {
                            assert(queue[i].error is None);
                            if i > 0 {
                                assert(after[i] == queue[i]);
                            }
                        }
                        assert forall|j: int|
                            0 <= j < shown.len() && (#[trigger] shown[j]) is Running implies after.len()
                            > 0 && after[0].started && after[0].id == j by {
                            if j != queue[0].id {
                                assert(shown[j] == statuses[j]);
                            }
                        }
                    },
                    Err(_) => {
                        lemma_front_leaves(queue, statuses, response);
                    },
                }
            }
        },
        WorkerEvent::Polled { report } => {
            if let Some(response) = after_poll(queue, report).0 {
                lemma_apply_all_push(statuses, Seq::empty(), response);
                assert(seq![response] =~= Seq::<ResponseModel>::empty().push(response));
                lemma_front_leaves(queue, statuses, response);
            }
        },
    }
}

/// Removing the front case with a status for it that is not `Running`
/// leaves no status `Running`.
proof fn lemma_front_leaves(
    queue: Seq<RunnableModel>,
    statuses: Seq<StatusModel>,
    response: ResponseModel,
)
    requires
        only_front_runs(queue, statuses),
        queue.len() > 0,
        response.id == queue[0].id,
        !(response.status is Running),
    ensures
        only_front_runs(queue.drop_first(), apply_response(statuses, response)),
        forall|j: int|
            0 <= j < statuses.len() ==> !((#[trigger] apply_response(statuses, response)[j])
                is Running),
{
    let after = queue.drop_first();
    let shown = apply_response(statuses, response);
    assert forall|i: int| 0 <= i < after.len() implies (#[trigger] after[i]).error is None && (i
        > 0 ==> !after[i].started) by {
        assert(after[i] == queue[i + 1]);
    }
    assert forall|j: int| 0 <= j < shown.len() implies !((#[trigger] shown[j]) is Running) by {
        if j != queue[0].id {
            assert(shown[j] == statuses[j]);
        }
    }
}

/// Whatever happens at the worker, in whatever order, applying all that it
/// sends leaves at most one test case running. The ids need not be
/// distinct, nor name a status.
pub proof fn lemma_always_at_most_one_running(
    queue: Seq<RunnableModel>,
    statuses: Seq<StatusModel>,
    events: Seq<WorkerEvent>,
)
    requires
        only_front_runs(queue, statuses),
    ensures
        only_front_runs(
            queue_after_all(queue, events),
            apply_all(statuses, sent_all(queue, events)),
        ),
        at_most_one_running(apply_all(statuses, sent_all(queue, events))),
    decreases events.len(),
{
    if events.len() > 0 {
        let earlier = events.drop_last();
        lemma_always_at_most_one_running(queue, statuses, earlier);
        lemma_apply_all_add(
            statuses,
            sent_all(queue, earlier),
            sent(queue_after_all(queue, earlier), events.last()),
        );
        lemma_event_keeps_front(
            queue_after_all(queue, earlier),
            apply_all(statuses, sent_all(queue, earlier)),
            events.last(),
        );
    }
}

/// Pulling keeps at most one test case running: where the statuses of the
/// suite show no `Running` but for a started case at the front of the
/// worker's queue, and what waits in the suite's buffer is what the worker
/// has sent over a sequence of events since, the statuses after pulling
/// show at most one `Running`, that of the case that the worker has in
/// flight by then.
pub proof fn lemma_pull_keeps_at_most_one_running(
    suite: SuiteModel,
    queue: Seq<RunnableModel>,
    events: Seq<WorkerEvent>,
)
    requires
        only_front_runs(queue, suite.statuses),
        suite.runner.worker_alive,
        suite.runner.incoming == sent_all(queue, events),
    ensures
        only_front_runs(queue_after_all(queue, events), suite.pulled().statuses),
        at_most_one_running(suite.pulled().statuses),
{
    lemma_always_at_most_one_running(queue, suite.statuses, events);
}

/// Pulling from a worker that is gone adds no `Running`: the one response
/// it gives is an error.
pub proof fn lemma_pull_from_dead_worker(suite: SuiteModel)
    requires
        !suite.runner.worker_alive,
        at_most_one_running(suite.statuses),
    ensures
        at_most_one_running(suite.pulled().statuses),
{
    let response = dead_worker_updates()[0];
    assert(dead_worker_updates() =~= Seq::<ResponseModel>::empty().push(response));
    lemma_apply_all_push(suite.statuses, Seq::empty(), response);
    let shown = suite.pulled().statuses;
    assert forall|i: int, j: int|
        0 <= i < shown.len() && 0 <= j < shown.len() && (#[trigger] shown[i]) is Running && (
        #[trigger] shown[j]) is Running implies i == j by {
        assert(shown[i] == suite.statuses[i]);
        assert(shown[j] == suite.statuses[j]);
    }
}

/// A run of a suite whose test cases have their places as their ids, taken
/// up by a worker with nothing queued, starts in agreement: the queue made
/// of the request that the suite hands out agrees with the statuses that
/// the suite has reset. Where the compilation fails, the one response goes
/// from `NotRun` to `Error` at the suite's id, and nothing is queued.
pub proof fn lemma_run_of_indexed_suite_agrees(
    suite: SuiteModel,
    compile_script: Seq<char>,
    run_script: Seq<char>,
    failure: Option<Seq<char>>,
)
    requires
        suite.indexed(),
    ensures
        ({
            let details = RunDetailsModel {
                compile_script,
                run_script,
                test_cases: suite.test_cases,
            };
            let event = WorkerEvent::Run { details, failure };
            let reset = all_not_run(suite.test_cases.len());
            agrees(
                queue_after(Seq::empty(), event),
                apply_all(reset, sent(Seq::empty(), event)),
            )
        }),
{
    let details = RunDetailsModel { compile_script, run_script, test_cases: suite.test_cases };
    let event = WorkerEvent::Run { details, failure };
    let reset = all_not_run(suite.test_cases.len());
    let message = match failure {
        Some(message) => message,
        None => Seq::empty(),
    };
    lemma_new_run_agrees(details, suite.test_cases.len(), message);
    assert(cancellations(Seq::empty()) =~= Seq::<ResponseModel>::empty());
    if failure is Some {
        lemma_apply_all_push(reset, Seq::empty(), suite_failure(message));
    }
}

/// An event other than the start of a run keeps the agreement of the queue
/// and the statuses.
pub proof fn lemma_event_keeps_agreement(
    queue: Seq<RunnableModel>,
    statuses: Seq<StatusModel>,
    event: WorkerEvent,
)
    requires
        agrees(queue, statuses),
        !(event is Run),
    ensures
        agrees(queue_after(queue, event), apply_all(statuses, sent(queue, event))),
{
    match event {
        WorkerEvent::Stop => {
            lemma_abort_agrees(queue, statuses);
        },
        WorkerEvent::Run { .. } => {},
        WorkerEvent::Advance => {
            lemma_next_step_agrees(queue, statuses);
            if let ProgressModel::Report(response) = next_step(queue).0 {
                assert(seq![response] =~= Seq::<ResponseModel>::empty().push(response));
                lemma_apply_all_push(statuses, Seq::empty(), response);
            }
        },
        WorkerEvent::Spawned { outcome } => {
            lemma_after_spawn_agrees(queue, statuses, outcome);
            if let Some(response) = after_spawn(queue, outcome).0 {
                assert(seq![response] =~= Seq::<ResponseModel>::empty().push(response));
                lemma_apply_all_push(statuses, Seq::empty(), response);
            }
        },
        WorkerEvent::Polled { report } => {
            lemma_after_poll_agrees(queue, statuses, report);
            if let Some(response) = after_poll(queue, report).0 {
                assert(seq![response] =~= Seq::<ResponseModel>::empty().push(response));
                lemma_apply_all_push(statuses, Seq::empty(), response);
            }
        },
    }
}

/// While the queue and the statuses agree, what the worker sends over any
/// events within a run names test cases of the suite only, so that pulling
/// it finds a status for each response; and the agreement holds afterwards.
pub proof fn lemma_sent_within_a_run_is_in_range(
    queue: Seq<RunnableModel>,
    statuses: Seq<StatusModel>,
    events: Seq<WorkerEvent>,
)
    requires
        agrees(queue, statuses),
        forall|i: int| 0 <= i < events.len() ==> !((#[trigger] events[i]) is Run),
    ensures
        ids_below(sent_all(queue, events), statuses.len() as int),
        agrees(queue_after_all(queue, events), apply_all(statuses, sent_all(queue, events))),
    decreases events.len(),
{
    if events.len() > 0 {
        let earlier = events.drop_last();
        let event = events.last();
        assert forall|i: int| 0 <= i < earlier.len() implies !((#[trigger] earlier[i]) is Run) by {
            assert(earlier[i] == events[i]);
        }
        assert(!(events[events.len() - 1] is Run));
        lemma_sent_within_a_run_is_in_range(queue, statuses, earlier);
        let before = queue_after_all(queue, earlier);
        let shown = apply_all(statuses, sent_all(queue, earlier));
        lemma_apply_all_len(statuses, sent_all(queue, earlier));
        lemma_apply_all_add(statuses, sent_all(queue, earlier), sent(before, event));
        lemma_event_keeps_agreement(before, shown, event);
        match event {
            WorkerEvent::Advance => {
                lemma_next_step_agrees(before, shown);
            },
            WorkerEvent::Spawned { outcome } => {
                lemma_after_spawn_agrees(before, shown, outcome);
            },
            WorkerEvent::Polled { report } => {
                lemma_after_poll_agrees(before, shown, report);
            },
            _ => {},
        }
        let all = sent_all(queue, events);
        assert forall|k: int| 0 <= k < all.len() implies (#[trigger] all[k]).id
            < statuses.len() by {
            let done = sent_all(queue, earlier).len();
            if k >= done {
                assert(all[k] == sent(before, event)[k - done]);
                if event is Stop {
                    assert(before[k - done].id < shown.len());
                }
            } else {
                assert(all[k] == sent_all(queue, earlier)[k]);
            }
        }
    }
}

/// A failed compilation runs nothing: on statuses that were reset, the
/// one response it gives leaves every status `NotRun` but that at the
/// suite's id, which is `Error`.
pub proof fn lemma_failed_compilation_runs_nothing(n: nat, message: Seq<char>)
    ensures
        apply_response(all_not_run(n), suite_failure(message)).len() == n,
        forall|j: int|
            0 <= j < n ==> (#[trigger] apply_response(all_not_run(n), suite_failure(message))[j])
                == if j == suite_failure(message).id {
                StatusModel::Error { err_msg: message }
            } else {
                StatusModel::NotRun
            },
{
}

/// Within a run, every change of a status is a step that a status may take.
/// This holds of every event but the start of a run, which follows a reset
/// of all statuses, and a stop that finds a process in flight, whose case
/// goes from `Running` to `Cancelled`.
pub proof fn lemma_each_change_is_a_legal_step(
    queue: Seq<RunnableModel>,
    statuses: Seq<StatusModel>,
    event: WorkerEvent,
)
    requires
        agrees(queue, statuses),
        !(event is Run),
        event is Stop ==> queue.len() == 0 || !queue[0].started,
    ensures
        apply_all(statuses, sent(queue, event)).len() == statuses.len(),
        forall|j: int|
            0 <= j < statuses.len() ==> (#[trigger] apply_all(statuses, sent(queue, event))[j])
                == statuses[j] || legal_step(
                statuses[j],
                apply_all(statuses, sent(queue, event))[j],
            ),
{
    let shown = apply_all(statuses, sent(queue, event));
    lemma_apply_all_len(statuses, sent(queue, event));
    match event {
        WorkerEvent::Stop => {
            lemma_cancellations_applied(queue, statuses);
            lemma_abort_agrees(queue, statuses);
            assert forall|j: int| 0 <= j < statuses.len() implies (#[trigger] shown[j])
                == statuses[j] || legal_step(statuses[j], shown[j]) by {
                if is_queued(queue, j) {
                    let i = choose|i: int| 0 <= i < queue.len() && (#[trigger] queue[i]).id == j;
                    assert(legal_step(statuses[queue[i].id as int], StatusModel::Cancelled));
                }
            }
        },
        WorkerEvent::Run { .. } => {},
        WorkerEvent::Advance => {
            lemma_next_step_agrees(queue, statuses);
            if let ProgressModel::Report(response) = next_step(queue).0 {
                assert(seq![response] =~= Seq::<ResponseModel>::empty().push(response));
                lemma_apply_all_push(statuses, Seq::empty(), response);
            }
        },
        WorkerEvent::Spawned { outcome } => {
            lemma_after_spawn_agrees(queue, statuses, outcome);
            if let Some(response) = after_spawn(queue, outcome).0 {
                assert(seq![response] =~= Seq::<ResponseModel>::empty().push(response));
                lemma_apply_all_push(statuses, Seq::empty(), response);
            }
        },
        WorkerEvent::Polled { report } => {
            lemma_after_poll_agrees(queue, statuses, report);
            if let Some(response) = after_poll(queue, report).0 {
                assert(seq![response] =~= Seq::<ResponseModel>::empty().push(response));
                lemma_apply_all_push(statuses, Seq::empty(), response);
            }
        },
    }
}

} // verus!

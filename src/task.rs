use vstd::prelude::*;
use crate::outcome::{IntoHost, Outcome, outcome_of};

verus! {

/// Where a task stands: its operation attached, handed to an executor, or its
/// result delivered. A task only moves forward through these.
#[derive(PartialEq, Eq, Structural, Clone, Copy, Debug)]
pub enum Phase {
    Pending,
    Running,
    Completed,
}

/// The phase after the operation is requested for running.
pub open spec fn phase_after_start(p: Phase) -> Phase {
    match p {
        Phase::Pending => Phase::Running,
        _ => p,
    }
}

/// The phase after a result is offered to the task.
pub open spec fn phase_after_complete(p: Phase) -> Phase {
    match p {
        Phase::Running => Phase::Completed,
        _ => p,
    }
}

/// Whether a result offered in phase `p` reaches the callback.
pub open spec fn delivers(p: Phase) -> bool {
    p == Phase::Running
}

/// A bridge between one background operation and the host's callback.
///
/// It owns the operation until it is started, hands it out exactly once, and
/// lets exactly one result through to the callback after that.
pub struct FutureTask<F> {
    operation: Option<F>,
    phase: Phase,
}

impl<F> FutureTask<F> {
    pub closed spec fn phase_spec(&self) -> Phase {
        self.phase
    }

    /// The operation still held by the task.
    pub closed spec fn operation_spec(&self) -> Option<F> {
        self.operation
    }

    /// The operation is held exactly while the task is pending.
    pub closed spec fn wf(&self) -> bool {
        (self.phase == Phase::Pending) == (self.operation is Some)
    }

    /// A pending task that holds `fut`.
    pub fn new(fut: F) -> (t: Self)
        ensures
            t.wf(),
            t.phase_spec() == Phase::Pending,
            t.operation_spec() == Some(fut),
    {
        FutureTask { operation: Some(fut), phase: Phase::Pending }
    }

    pub fn phase(&self) -> (p: Phase)
        ensures
            p == self.phase_spec(),
    {
        self.phase
    }

    /// Takes the operation out for running. A pending task hands it out and
    /// becomes running; in any other phase nothing is handed out.
    pub fn start(&mut self) -> (r: Option<F>)
        requires
            old(self).wf(),
        ensures
            final(self).wf(),
            final(self).phase_spec() == phase_after_start(old(self).phase_spec()),
            final(self).operation_spec() is None,
            r == old(self).operation_spec(),
            (r is Some) == (old(self).phase_spec() == Phase::Pending),
    {
        match self.phase {
            Phase::Pending => {
                self.phase = Phase::Running;
                self.operation.take()
            },
            _ => None,
        }
    }

    /// Offers the operation's result. A running task converts it for the
    /// callback and becomes completed; in any other phase the result is
    /// dropped and nothing reaches the callback.
    pub fn complete<T: IntoHost>(&mut self, result: Result<T, String>) -> (r: Option<Outcome>)
        requires
            old(self).wf(),
        ensures
            final(self).wf(),
            final(self).phase_spec() == phase_after_complete(old(self).phase_spec()),
            final(self).operation_spec() == old(self).operation_spec(),
            delivers(old(self).phase_spec()) ==> r == Some(outcome_of(result)),
            !delivers(old(self).phase_spec()) ==> r is None,
    {
        match self.phase {
            Phase::Running => {
                self.phase = Phase::Completed;
                Some(Outcome::from_result(result))
            },
            _ => None,
        }
    }
}

/// A request made of a task: hand out its operation, or offer it a result.
pub enum TaskOp {
    Start,
    Offer(Result<String, String>),
}

/// The phase after one request.
pub open spec fn task_next(p: Phase, op: TaskOp) -> Phase {
    match op {
        TaskOp::Start => phase_after_start(p),
        TaskOp::Offer(_) => phase_after_complete(p),
    }
}

/// The outcomes that reach the callback over the requests `ops`, from phase
/// `p`, in the order they reach it.
pub open spec fn task_delivered(p: Phase, ops: Seq<TaskOp>) -> Seq<Outcome>
    decreases ops.len(),
{
    if ops.len() == 0 {
        Seq::empty()
    } else {
        let here = if ops[0] is Offer && delivers(p) {
            seq![outcome_of(ops[0]->Offer_0)]
        } else {
            Seq::empty()
        };
        here + task_delivered(task_next(p, ops[0]), ops.drop_first())
    }
}

/// A completed task lets nothing more through, and any other lets through at
/// most one outcome, whatever it is asked.
pub proof fn lemma_task_at_most_once(p: Phase, ops: Seq<TaskOp>)
    ensures
        task_delivered(p, ops).len() <= (if p == Phase::Completed { 0nat } else { 1nat }),
    decreases ops.len(),
{
    if ops.len() > 0 {
        lemma_task_at_most_once(task_next(p, ops[0]), ops.drop_first());
    }
}

/// A running task delivers exactly the first result offered to it.
pub proof fn lemma_running_delivers_first_offer(ops: Seq<TaskOp>, j: int)
    requires
        0 <= j < ops.len(),
        ops[j] is Offer,
        forall|k: int| 0 <= k < j ==> ops[k] is Start,
    ensures
        task_delivered(Phase::Running, ops) == seq![outcome_of(ops[j]->Offer_0)],
    decreases ops.len(),
{
    if ops[0] is Offer {
        lemma_task_at_most_once(Phase::Completed, ops.drop_first());
        assert(task_delivered(Phase::Completed, ops.drop_first()).len() == 0);
        assert(task_delivered(Phase::Running, ops) =~= seq![outcome_of(ops[0]->Offer_0)]);
    } else {
        lemma_running_delivers_first_offer(ops.drop_first(), j - 1);
        assert(task_delivered(Phase::Running, ops) =~= task_delivered(Phase::Running, ops.drop_first()));
    }
}

/// Whether `ops`, from a new task, first starts it at `i` and first offers
/// it a result after that at `j`.
pub open spec fn started_then_offered(ops: Seq<TaskOp>, i: int, j: int) -> bool {
    &&& 0 <= i < j < ops.len()
    &&& ops[i] is Start
    &&& ops[j] is Offer
    &&& forall|k: int| 0 <= k < i ==> ops[k] is Offer
    &&& forall|k: int| i < k < j ==> ops[k] is Start
}

/// A new task that is started and then offered a result delivers exactly
/// that result to its callback, once, whatever else it is asked.
pub proof fn lemma_task_delivers_its_result(ops: Seq<TaskOp>, i: int, j: int)
    requires
        started_then_offered(ops, i, j),
    ensures
        task_delivered(Phase::Pending, ops) == seq![outcome_of(ops[j]->Offer_0)],
    decreases ops.len(),
{
    let rest = ops.drop_first();
    if i == 0 {
        lemma_running_delivers_first_offer(rest, j - 1);
        assert(task_delivered(Phase::Pending, ops) =~= task_delivered(Phase::Running, rest));
    } else {
        assert(started_then_offered(rest, i - 1, j - 1));
        lemma_task_delivers_its_result(rest, i - 1, j - 1);
        assert(task_delivered(Phase::Pending, ops) =~= task_delivered(Phase::Pending, rest));
    }
}

/// How many outcomes reach the callbacks of all the tasks in `runs`.
pub open spec fn total_delivered(runs: Seq<Seq<TaskOp>>) -> nat
    decreases runs.len(),
{
    if runs.len() == 0 {
        0
    } else {
        task_delivered(Phase::Pending, runs[0]).len() + total_delivered(runs.drop_first())
    }
}

/// Many tasks, each its own value, each started and then offered its own
/// result, in whatever order across tasks: each callback receives exactly
/// its own task's result, once, and the callbacks receive as many outcomes
/// in all as there are tasks.
pub proof fn lemma_tasks_deliver_own_results(runs: Seq<Seq<TaskOp>>, starts: Seq<int>, offers: Seq<int>)
    requires
        starts.len() == runs.len(),
        offers.len() == runs.len(),
        forall|k: int| 0 <= k < runs.len() ==> started_then_offered(#[trigger] runs[k], starts[k], offers[k]),
    ensures
        forall|k: int| 0 <= k < runs.len() ==> task_delivered(Phase::Pending, #[trigger] runs[k])
            == seq![outcome_of(runs[k][offers[k]]->Offer_0)],
        total_delivered(runs) == runs.len(),
    decreases runs.len(),
{
    assert forall|k: int| 0 <= k < runs.len() implies task_delivered(Phase::Pending, #[trigger] runs[k])
        == seq![outcome_of(runs[k][offers[k]]->Offer_0)] by {
        lemma_task_delivers_its_result(runs[k], starts[k], offers[k]);
    }
    if runs.len() > 0 {
        let rest = runs.drop_first();
        assert forall|k: int| 0 <= k < rest.len() implies started_then_offered(#[trigger] rest[k], starts.drop_first()[k], offers.drop_first()[k]) by {
            assert(rest[k] == runs[k + 1]);
        }
        lemma_tasks_deliver_own_results(rest, starts.drop_first(), offers.drop_first());
        assert(task_delivered(Phase::Pending, runs[0]).len() == 1);
    }
}

} // verus!

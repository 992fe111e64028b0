//! The decisions of one search worker, as a state machine that the thread
//! running it drives: the thread performs each action and hands back what it
//! observed. A model of several workers sharing the termination signal states
//! that exactly one solution is published, and that workers stop promptly
//! once the signal is set.
use vstd::prelude::*;

verus! {

/// Where a worker stands.
#[derive(Debug, Clone, Copy, PartialEq, Eq, Structural)]
pub enum WorkerState {
    /// About to read the termination signal.
    Running,
    /// Waiting for a candidate to be generated and matched.
    Generating,
    /// Holding a matching candidate, waiting for the outcome of its claim.
    Reporting,
    /// Done; the thread exits.
    Stopped,
}

/// What the thread observed while performing the last action.
#[derive(Debug, Clone, Copy, PartialEq, Eq, Structural)]
pub enum WorkerEvent {
    /// The termination signal was read, with this value.
    Signal(bool),
    /// Generating a candidate failed; the attempt is retried.
    GenerationFailed,
    /// A candidate was generated; whether its address matches.
    Generated(bool),
    /// The signal was swapped from `false` to `true`; whether that succeeded.
    Claimed(bool),
}

/// What the thread does next.
#[derive(Debug, Clone, Copy, PartialEq, Eq, Structural)]
pub enum WorkerAction {
    /// Read the termination signal.
    ReadSignal,
    /// Generate a candidate and match its address.
    Generate,
    /// Add one to the progress counter, then read the termination signal.
    Count,
    /// Swap the termination signal from `false` to `true` in one atomic step.
    Claim,
    /// Hand the candidate over as the solution, and exit.
    Publish,
    /// Drop the candidate, and exit.
    Discard,
    /// Exit.
    Exit,
}

/// The action that a worker in this state waits to see performed.
pub open spec fn awaited(s: WorkerState) -> WorkerAction {
    match s {
        WorkerState::Running => WorkerAction::ReadSignal,
        WorkerState::Generating => WorkerAction::Generate,
        WorkerState::Reporting => WorkerAction::Claim,
        WorkerState::Stopped => WorkerAction::Exit,
    }
}

/// One transition: the next state and the action to perform. An event that
/// does not answer the awaited action leaves the state as it is and asks
/// for that action again.
pub open spec fn step_spec(s: WorkerState, e: WorkerEvent) -> (WorkerState, WorkerAction) {
    match (s, e) {
        (WorkerState::Running, WorkerEvent::Signal(true)) => (
            WorkerState::Stopped,
            WorkerAction::Exit,
        ),
        (WorkerState::Running, WorkerEvent::Signal(false)) => (
            WorkerState::Generating,
            WorkerAction::Generate,
        ),
        (WorkerState::Generating, WorkerEvent::GenerationFailed) => (
            WorkerState::Running,
            WorkerAction::ReadSignal,
        ),
        (WorkerState::Generating, WorkerEvent::Generated(false)) => (
            WorkerState::Running,
            WorkerAction::Count,
        ),
        (WorkerState::Generating, WorkerEvent::Generated(true)) => (
            WorkerState::Reporting,
            WorkerAction::Claim,
        ),
        (WorkerState::Reporting, WorkerEvent::Claimed(true)) => (
            WorkerState::Stopped,
            WorkerAction::Publish,
        ),
        (WorkerState::Reporting, WorkerEvent::Claimed(false)) => (
            WorkerState::Stopped,
            WorkerAction::Discard,
        ),
        _ => (s, awaited(s)),
    }
}

impl WorkerState {
    /// A new worker: running, and about to read the signal.
    pub fn start() -> (r: (WorkerState, WorkerAction))
        ensures
            r == (WorkerState::Running, WorkerAction::ReadSignal),
    {
        (WorkerState::Running, WorkerAction::ReadSignal)
    }

    /// The next state, and the action to perform, after `e` was observed.
    pub fn step(self, e: WorkerEvent) -> (r: (WorkerState, WorkerAction))
        ensures
            r == step_spec(self, e),
    {
        match (self, e) {
            (WorkerState::Running, WorkerEvent::Signal(true)) => (
                WorkerState::Stopped,
                WorkerAction::Exit,
            ),
            (WorkerState::Running, WorkerEvent::Signal(false)) => (
                WorkerState::Generating,
                WorkerAction::Generate,
            ),
            (WorkerState::Generating, WorkerEvent::GenerationFailed) => (
                WorkerState::Running,
                WorkerAction::ReadSignal,
            ),
            (WorkerState::Generating, WorkerEvent::Generated(false)) => (
                WorkerState::Running,
                WorkerAction::Count,
            ),
            (WorkerState::Generating, WorkerEvent::Generated(true)) => (
                WorkerState::Reporting,
                WorkerAction::Claim,
            ),
            (WorkerState::Reporting, WorkerEvent::Claimed(true)) => (
                WorkerState::Stopped,
                WorkerAction::Publish,
            ),
            (WorkerState::Reporting, WorkerEvent::Claimed(false)) => (
                WorkerState::Stopped,
                WorkerAction::Discard,
            ),
            _ => (self, self.awaited_action()),
        }
    }

    /// The action that this state waits to see performed.
    pub fn awaited_action(self) -> (r: WorkerAction)
        ensures
            r == awaited(self),
    {
        match self {
            WorkerState::Running => WorkerAction::ReadSignal,
            WorkerState::Generating => WorkerAction::Generate,
            WorkerState::Reporting => WorkerAction::Claim,
            WorkerState::Stopped => WorkerAction::Exit,
        }
    }
}

/// Several workers sharing one termination signal, and how many solutions
/// they have published.
pub struct SearchModel {
    pub signal: bool,
    pub workers: Seq<WorkerState>,
    pub published: nat,
}

/// What the shared world answers to the action that worker state `s` awaits:
/// the signal as it stands, the outcome `generated` of a generation (`None`
/// for a failure, else whether the address matched), or the outcome of a
/// compare-and-swap from `false` to `true`.
pub open spec fn observed(s: WorkerState, signal: bool, generated: Option<bool>) -> WorkerEvent {
    match s {
        WorkerState::Generating => match generated {
            Some(m) => WorkerEvent::Generated(m),
            None => WorkerEvent::GenerationFailed,
        },
        WorkerState::Reporting => WorkerEvent::Claimed(!signal),
        _ => WorkerEvent::Signal(signal),
    }
}

/// Worker `i` takes one step; a claim leaves the signal set.
pub open spec fn search_step(m: SearchModel, i: int, generated: Option<bool>) -> SearchModel {
    if 0 <= i < m.workers.len() {
        let w = m.workers[i];
        let (next, action) = step_spec(w, observed(w, m.signal, generated));
        SearchModel {
            signal: m.signal || w == WorkerState::Reporting,
            workers: m.workers.update(i, next),
            published: m.published + if action == WorkerAction::Publish {
                1nat
            } else {
                0nat
            },
        }
    } else {
        m
    }
}

/// The workers take steps in the order that `schedule` gives, each entry
/// naming a worker and the outcome of a generation, should it make one.
pub open spec fn run_search(m: SearchModel, schedule: Seq<(int, Option<bool>)>) -> SearchModel
    decreases schedule.len(),
{
    if schedule.len() == 0 {
        m
    } else {
        run_search(search_step(m, schedule[0].0, schedule[0].1), schedule.drop_first())
    }
}

/// `n` workers, all running, with the signal clear and nothing published.
pub open spec fn search_start(n: nat) -> SearchModel {
    SearchModel {
        signal: false,
        workers: Seq::new(n, |i: int| WorkerState::Running),
        published: 0,
    }
}

/// Every worker has stopped.
pub open spec fn all_stopped(m: SearchModel) -> bool {
    forall|i: int| 0 <= i < m.workers.len() ==> m.workers[i] == WorkerState::Stopped
}

/// One solution is published exactly when the signal is set, and a stopped
/// worker has seen the signal set.
pub open spec fn search_inv(m: SearchModel) -> bool {
    &&& m.published == if m.signal {
        1nat
    } else {
        0nat
    }
    &&& forall|i: int| 0 <= i < m.workers.len() && m.workers[i] == WorkerState::Stopped ==> m.signal
}

proof fn lemma_step_keeps_inv(m: SearchModel, i: int, generated: Option<bool>)
    requires
        search_inv(m),
    ensures
        search_inv(search_step(m, i, generated)),
        search_step(m, i, generated).workers.len() == m.workers.len(),
{
    let m2 = search_step(m, i, generated);
    if 0 <= i < m.workers.len() {
        assert forall|j: int|
            0 <= j < m2.workers.len() && m2.workers[j] == WorkerState::Stopped implies m2.signal by {
            if j != i {
                assert(m2.workers[j] == m.workers[j]);
            }
        }
    }
}

proof fn lemma_run_keeps_inv(m: SearchModel, schedule: Seq<(int, Option<bool>)>)
    requires
        search_inv(m),
    ensures
        search_inv(run_search(m, schedule)),
        run_search(m, schedule).workers.len() == m.workers.len(),
    decreases schedule.len(),
{
    if schedule.len() > 0 {
        lemma_step_keeps_inv(m, schedule[0].0, schedule[0].1);
        lemma_run_keeps_inv(search_step(m, schedule[0].0, schedule[0].1), schedule.drop_first());
    }
}

/// However the steps of `n` workers interleave, at most one solution is
/// published; and once every worker has stopped, exactly one has been.
pub proof fn lemma_exactly_one_solution(n: nat, schedule: Seq<(int, Option<bool>)>)
    requires
        n >= 1,
    ensures
        run_search(search_start(n), schedule).published <= 1,
        all_stopped(run_search(search_start(n), schedule)) ==> run_search(
            search_start(n),
            schedule,
        ).published == 1,
{
    let m = run_search(search_start(n), schedule);
    lemma_run_keeps_inv(search_start(n), schedule);
    if all_stopped(m) {
        assert(m.workers[0] == WorkerState::Stopped);
    }
}

/// Once set, the termination signal stays set.
pub proof fn lemma_signal_stays_set(m: SearchModel, schedule: Seq<(int, Option<bool>)>)
    requires
        m.signal,
    ensures
        run_search(m, schedule).signal,
    decreases schedule.len(),
{
    if schedule.len() > 0 {
        lemma_signal_stays_set(search_step(m, schedule[0].0, schedule[0].1), schedule.drop_first());
    }
}

/// With the signal set, a worker in any state stops within two of its own
/// steps, whatever the generations in between yield, and in doing so neither
/// generates a new candidate nor publishes one.
pub proof fn lemma_stops_once_signalled(w: WorkerState, first: Option<bool>, second: Option<bool>)
    ensures
        ({
            let (w1, a1) = step_spec(w, observed(w, true, first));
            let (w2, a2) = step_spec(w1, observed(w1, true, second));
            &&& w2 == WorkerState::Stopped
            &&& a1 != WorkerAction::Generate && a2 != WorkerAction::Generate
            &&& a1 != WorkerAction::Publish && a2 != WorkerAction::Publish
        }),
{
}

} // verus!

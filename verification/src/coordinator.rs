//! The run coordinator: what a run does, step by step, and why the handoff
//! channel it opens never makes a worker wait.

use crate::config::{Config, Mode};
use vstd::prelude::*;

verus! {

/// One step of a run, for the driver to perform.
#[derive(Clone, Copy, Debug, PartialEq, Eq, Structural)]
pub enum Step {
    /// Open the handoff channel with room for `capacity` results.
    OpenChannel { capacity: usize },
    /// Start the aggregator on the receiving end, to make `expected` receives.
    SpawnAggregator { expected: usize },
    /// Start one worker on a sending end.
    SpawnWorker { id: usize, duration: u64 },
    /// Wait until every worker has finished.
    JoinWorkers,
    /// Wait until the aggregator has finished.
    JoinAggregator,
    /// Print the persisted records of `worker_count` workers and the global one.
    Replay { worker_count: usize },
}

/// The steps that spawn workers `1` to `worker_count`, in ascending order.
pub open spec fn spawn_steps(worker_count: nat, duration: u64) -> Seq<Step> {
    Seq::new(
        worker_count,
        |i: int| Step::SpawnWorker { id: (i + 1) as usize, duration },
    )
}

/// The steps of a run. A collecting run opens a channel with one place per
/// worker, starts the aggregator, starts every worker, waits for the workers
/// and only then for the aggregator. A replaying run only prints.
pub open spec fn schedule_spec(config: Config) -> Seq<Step> {
    match config.mode {
        Mode::Collect => seq![
            Step::OpenChannel { capacity: config.worker_count },
            Step::SpawnAggregator { expected: config.worker_count },
        ] + spawn_steps(config.worker_count as nat, config.duration) + seq![
            Step::JoinWorkers,
            Step::JoinAggregator,
        ],
        Mode::Replay => seq![Step::Replay { worker_count: config.worker_count }],
    }
}

/// Lays out the steps of a run.
pub fn schedule(config: &Config) -> (steps: Vec<Step>)
    ensures
        steps@ == schedule_spec(*config),
{
    let mut steps: Vec<Step> = Vec::new();
    match config.mode {
        Mode::Replay => {
            steps.push(Step::Replay { worker_count: config.worker_count });
            assert(steps@ =~= schedule_spec(*config));
        },
        Mode::Collect => {
            steps.push(Step::OpenChannel { capacity: config.worker_count });
            steps.push(Step::SpawnAggregator { expected: config.worker_count });
            let ghost head = steps@;
            let mut spawned: usize = 0;
            while spawned < config.worker_count
                invariant
                    spawned <= config.worker_count,
                    steps@ == head + spawn_steps(spawned as nat, config.duration),
                decreases config.worker_count - spawned,
            {
                steps.push(Step::SpawnWorker { id: spawned + 1, duration: config.duration });
                assert(steps@ =~= head + spawn_steps((spawned + 1) as nat, config.duration));
                spawned = spawned + 1;
            }
            steps.push(Step::JoinWorkers);
            steps.push(Step::JoinAggregator);
            assert(steps@ =~= schedule_spec(*config));
        },
    }
    steps
}

/// In a collecting run the channel has one place, and the aggregator one
/// receive, for each worker; the workers are spawned after the aggregator and
/// before the joins, with the identifiers 1 to the number of workers, each
/// once, and all with the configured window.
pub proof fn lemma_one_place_per_worker(config: Config)
    requires
        config.mode == Mode::Collect,
    ensures
        schedule_spec(config).len() == config.worker_count + 4,
        schedule_spec(config)[0] == (Step::OpenChannel { capacity: config.worker_count }),
        schedule_spec(config)[1] == (Step::SpawnAggregator { expected: config.worker_count }),
        forall|i: int|
            0 <= i < config.worker_count ==> #[trigger] schedule_spec(config)[i + 2] == (
            Step::SpawnWorker { id: (i + 1) as usize, duration: config.duration }),
        forall|i: int, j: int|
            0 <= i < j < config.worker_count ==> #[trigger] schedule_spec(config)[i + 2]
                != #[trigger] schedule_spec(config)[j + 2],
        schedule_spec(config)[config.worker_count + 2] == Step::JoinWorkers,
        schedule_spec(config)[config.worker_count + 3] == Step::JoinAggregator,
{
    let workers = spawn_steps(config.worker_count as nat, config.duration);
    assert forall|i: int| 0 <= i < config.worker_count implies #[trigger] schedule_spec(
        config,
    )[i + 2] == workers[i] by {}
}

/// One operation on the handoff channel.
pub enum ChannelOp {
    /// A worker puts its result into the channel.
    Send,
    /// The aggregator takes a result out, if one is waiting.
    Receive,
}

/// How many results wait in the channel after a history of operations.
pub open spec fn waiting(history: Seq<ChannelOp>) -> nat
    decreases history.len(),
{
    if history.len() == 0 {
        0
    } else {
        let before = waiting(history.drop_last());
        match history.last() {
            ChannelOp::Send => before + 1,
            ChannelOp::Receive => if before > 0 {
                (before - 1) as nat
            } else {
                0
            },
        }
    }
}

/// How many sends a history holds.
pub open spec fn sends(history: Seq<ChannelOp>) -> nat
    decreases history.len(),
{
    if history.len() == 0 {
        0
    } else {
        sends(history.drop_last()) + if history.last() is Send {
            1nat
        } else {
            0nat
        }
    }
}

/// No more results wait in the channel than were sent.
pub proof fn lemma_waiting_at_most_sent(history: Seq<ChannelOp>)
    ensures
        waiting(history) <= sends(history),
    decreases history.len(),
{
    if history.len() > 0 {
        lemma_waiting_at_most_sent(history.drop_last());
    }
}

/// A prefix of a history holds no more sends than the whole, and fewer when
/// the operation that follows it is a send.
pub proof fn lemma_sends_of_prefix(history: Seq<ChannelOp>, k: int)
    requires
        0 <= k <= history.len(),
    ensures
        sends(history.take(k)) <= sends(history),
        k < history.len() && history[k] is Send ==> sends(history.take(k)) < sends(history),
    decreases history.len() - k,
{
    if k == history.len() {
        assert(history.take(k) =~= history);
    } else {
        let front = history.drop_last();
        assert(front.take(k) =~= history.take(k));
        lemma_sends_of_prefix(front, k);
        if k == history.len() - 1 {
            assert(front.take(k) =~= front);
        }
    }
}

/// A channel with one place per worker never makes a send wait: when no more
/// sends are ever issued than the channel has places, every send finds fewer
/// results waiting than the capacity, whenever the aggregator receives.
pub proof fn lemma_send_finds_room(capacity: nat, history: Seq<ChannelOp>, k: int)
    requires
        sends(history) <= capacity,
        0 <= k < history.len(),
        history[k] is Send,
    ensures
        waiting(history.take(k)) < capacity,
{
    lemma_waiting_at_most_sent(history.take(k));
    lemma_sends_of_prefix(history, k);
}

} // verus!

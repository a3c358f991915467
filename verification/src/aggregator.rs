//! The fan-in point: collects one local mean per worker, in arrival order.

use vstd::prelude::*;

verus! {

/// What one sampling worker hands over: its identifier and its local mean.
#[derive(Debug, PartialEq)]
pub struct WorkerResult<T> {
    pub worker_id: usize,
    pub local_mean: T,
}

/// What one receive on the handoff channel yields.
#[derive(Debug, PartialEq)]
pub enum Delivery<T> {
    /// A worker's result arrived.
    Arrived(WorkerResult<T>),
    /// The channel has no producers left and is empty.
    Closed,
}

/// What the aggregator's driver has to do next.
#[derive(Clone, Copy, Debug, PartialEq, Eq, Structural)]
pub enum AggregatorAction {
    /// Receive once more from the handoff channel and report the delivery.
    Receive,
    /// Every receive is done and some mean arrived: compute the mean of the
    /// collected means and persist both.
    Summarize,
    /// Every receive is done and nothing arrived: report it, persist nothing.
    ReportNoData,
}

/// The final record of a run: the local means in arrival order and their mean.
#[derive(Debug, PartialEq)]
pub struct GlobalSummary<T> {
    pub per_worker_means: Vec<T>,
    pub global_mean: T,
}

/// Mathematical model of an [`Aggregator`].
pub ghost struct AggregatorModel<T> {
    /// How many receives the aggregator makes in all.
    pub expected: nat,
    /// How many receives it has made.
    pub rounds: nat,
    /// The local means received so far, oldest first.
    pub means: Seq<T>,
}

impl<T> AggregatorModel<T> {
    /// The model of an aggregator that has received nothing yet.
    pub open spec fn initial(expected: nat) -> Self {
        AggregatorModel { expected, rounds: 0, means: Seq::empty() }
    }

    pub open spec fn well_formed(self) -> bool {
        self.means.len() <= self.rounds <= self.expected
    }

    /// The action that this state calls for.
    pub open spec fn action(self) -> AggregatorAction {
        if self.rounds < self.expected {
            AggregatorAction::Receive
        } else if self.means.len() == 0 {
            AggregatorAction::ReportNoData
        } else {
            AggregatorAction::Summarize
        }
    }

    /// The state after one delivery. Once every receive is made, later
    /// deliveries change nothing. The worker's identifier is not kept.
    pub open spec fn deliver(self, delivery: Delivery<T>) -> Self {
        if self.rounds >= self.expected {
            self
        } else {
            match delivery {
                Delivery::Arrived(result) => AggregatorModel {
                    expected: self.expected,
                    rounds: self.rounds + 1,
                    means: self.means.push(result.local_mean),
                },
                Delivery::Closed => AggregatorModel {
                    expected: self.expected,
                    rounds: self.rounds + 1,
                    means: self.means,
                },
            }
        }
    }

    /// The state after a sequence of deliveries, taken oldest first.
    pub open spec fn deliver_all(self, deliveries: Seq<Delivery<T>>) -> Self
        decreases deliveries.len(),
    {
        if deliveries.len() == 0 {
            self
        } else {
            self.deliver_all(deliveries.drop_last()).deliver(deliveries.last())
        }
    }
}

/// The aggregator's state: how many receives it owes, how many it made, and the
/// local means that arrived, in arrival order.
pub struct Aggregator<T> {
    expected: usize,
    rounds: usize,
    means: Vec<T>,
}

impl<T> View for Aggregator<T> {
    type V = AggregatorModel<T>;

    closed spec fn view(&self) -> AggregatorModel<T> {
        AggregatorModel {
            expected: self.expected as nat,
            rounds: self.rounds as nat,
            means: self.means@,
        }
    }
}

impl<T> Aggregator<T> {
    /// Holds of every aggregator that this module's functions build.
    pub open spec fn well_formed(&self) -> bool {
        self@.well_formed()
    }

    /// An aggregator that will make `expected_count` receives.
    pub fn new(expected_count: usize) -> (agg: Self)
        ensures
            agg.well_formed(),
            agg@ == AggregatorModel::<T>::initial(expected_count as nat),
    {
        Aggregator { expected: expected_count, rounds: 0, means: Vec::new() }
    }

    /// What the driver has to do in this state.
    pub fn next_action(&self) -> (action: AggregatorAction)
        ensures
            action == self@.action(),
    {
        if self.rounds < self.expected {
            AggregatorAction::Receive
        } else if self.means.len() == 0 {
            AggregatorAction::ReportNoData
        } else {
            AggregatorAction::Summarize
        }
    }

    /// Takes in what one receive yielded and says what to do next.
    pub fn on_delivery(&mut self, delivery: Delivery<T>) -> (action: AggregatorAction)
        requires
            old(self).well_formed(),
        ensures
            final(self).well_formed(),
            final(self)@ == old(self)@.deliver(delivery),
            action == final(self)@.action(),
    {
        if self.rounds < self.expected {
            self.rounds = self.rounds + 1;
            match delivery {
                Delivery::Arrived(result) => {
                    self.means.push(result.local_mean);
                },
                Delivery::Closed => {},
            }
        }
        self.next_action()
    }

    /// How many receives the aggregator makes in all.
    pub fn expected_count(&self) -> (n: usize)
        ensures
            n == self@.expected,
    {
        self.expected
    }

    /// The local means received so far, in arrival order.
    pub fn means(&self) -> (means: &Vec<T>)
        ensures
            means@ == self@.means,
    {
        &self.means
    }

    /// Closes the run with the record to persist. There is none while receives
    /// are owed or when nothing arrived. The global mean is what `mean_of`
    /// computes from the collected local means and from nothing else;
    /// `mean_of` is called only on a list that is not empty.
    pub fn into_summary<F: FnOnce(&Vec<T>) -> T>(self, mean_of: F) -> (summary: Option<
        GlobalSummary<T>,
    >)
        requires
            forall|means: &Vec<T>| means@.len() > 0 ==> #[trigger] mean_of.requires((means,)),
        ensures
            summary is Some <==> self@.action() == AggregatorAction::Summarize,
            summary is Some ==> summary->0.per_worker_means@ == self@.means,
            summary is Some ==> exists|means: &Vec<T>|
                means@ == self@.means && #[trigger] mean_of.ensures(
                    (means,),
                    summary->0.global_mean,
                ),
    {
        if self.rounds >= self.expected && self.means.len() > 0 {
            let global_mean = mean_of(&self.means);
            let ghost collected = self.means;
            let summary = Some(GlobalSummary { per_worker_means: self.means, global_mean });
            assert(exists|means: &Vec<T>|
                means@ == self@.means && #[trigger] mean_of.ensures(
                    (means,),
                    summary->0.global_mean,
                )) by {
                let means = &collected;
                assert(means@ == self@.means && mean_of.ensures(
                    (means,),
                    summary->0.global_mean,
                ));
            }
            summary
        } else {
            None
        }
    }
}

/// The local means of a sequence of results, in the same order.
pub open spec fn local_means<T>(results: Seq<WorkerResult<T>>) -> Seq<T> {
    results.map_values(|r: WorkerResult<T>| r.local_mean)
}

/// The deliveries in which each of `results` arrives, in the same order.
pub open spec fn arrivals<T>(results: Seq<WorkerResult<T>>) -> Seq<Delivery<T>> {
    results.map_values(|r: WorkerResult<T>| Delivery::Arrived(r))
}

/// The collected means follow arrival order: when at most the expected number
/// of results arrive, the aggregator holds exactly their local means, in the
/// order in which they arrived, whatever the workers' identifiers are.
pub proof fn lemma_means_follow_arrival_order<T>(expected: nat, results: Seq<WorkerResult<T>>)
    requires
        results.len() <= expected,
    ensures
        AggregatorModel::<T>::initial(expected).deliver_all(arrivals(results)).means
            == local_means(results),
        AggregatorModel::<T>::initial(expected).deliver_all(arrivals(results)).rounds
            == results.len(),
        AggregatorModel::<T>::initial(expected).deliver_all(arrivals(results)).expected
            == expected,
    decreases results.len(),
{
    let start = AggregatorModel::<T>::initial(expected);
    if results.len() == 0 {
        assert(local_means(results) =~= Seq::<T>::empty());
    } else {
        let front = results.drop_last();
        lemma_means_follow_arrival_order(expected, front);
        assert(arrivals(results).drop_last() =~= arrivals(front));
        assert(arrivals(results).last() == Delivery::Arrived(results.last()));
        assert(local_means(results) =~= local_means(front).push(results.last().local_mean));
    }
}

/// The aggregator summarizes only after exactly the expected number of
/// deliveries: while fewer have been made it asks for another receive, and
/// every run of deliveries keeps the state well formed.
pub proof fn lemma_receives_until_expected<T>(expected: nat, deliveries: Seq<Delivery<T>>)
    ensures
        AggregatorModel::<T>::initial(expected).deliver_all(deliveries).well_formed(),
        AggregatorModel::<T>::initial(expected).deliver_all(deliveries).expected == expected,
        deliveries.len() < expected ==> AggregatorModel::<T>::initial(expected).deliver_all(
            deliveries,
        ).rounds == deliveries.len(),
        deliveries.len() >= expected ==> AggregatorModel::<T>::initial(expected).deliver_all(
            deliveries,
        ).rounds == expected,
    decreases deliveries.len(),
{
    if deliveries.len() > 0 {
        lemma_receives_until_expected(expected, deliveries.drop_last());
    }
}

} // verus!

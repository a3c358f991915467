//! The replay reporter: which records a run leaves behind, and in what order
//! they are read back.

use crate::decimal::{decimal_string, decimal_text, lemma_decimal_text_spells_its_number};
use vstd::prelude::*;
use vstd::string::*;

verus! {

/// The name of the record of worker `id`.
pub open spec fn worker_record_name(id: nat) -> Seq<char> {
    "client_"@ + decimal_text(id) + "_data.txt"@
}

/// The name of the global record.
pub open spec fn global_record_name() -> Seq<char> {
    "global_data.txt"@
}

/// The records of a run in reading order: those of workers `1` to
/// `worker_count`, ascending, then the global one.
pub open spec fn record_names_spec(worker_count: nat) -> Seq<Seq<char>> {
    Seq::new(
        worker_count + 1,
        |i: int|
            if i < worker_count {
                worker_record_name((i + 1) as nat)
            } else {
                global_record_name()
            },
    )
}

/// Every record has a name of its own: two workers never share a record, and
/// no worker's record is the global one.
pub proof fn lemma_record_names_differ(first: nat, second: nat)
    requires
        first != second,
    ensures
        worker_record_name(first) != worker_record_name(second),
        worker_record_name(first) != global_record_name(),
{
    reveal_strlit("client_");
    reveal_strlit("_data.txt");
    reveal_strlit("global_data.txt");
    let one = worker_record_name(first);
    let other = worker_record_name(second);
    assert(one[0] == 'c');
    assert(global_record_name()[0] == 'g');
    if one == other {
        let a = decimal_text(first);
        let b = decimal_text(second);
        assert(one.len() == a.len() + 16);
        assert(other.len() == b.len() + 16);
        assert(a =~= one.subrange(7, one.len() - 9));
        assert(b =~= other.subrange(7, other.len() - 9));
        lemma_decimal_text_spells_its_number(first);
        lemma_decimal_text_spells_its_number(second);
        assert(a == b);
    }
}

/// The texts of a sequence of strings.
pub open spec fn texts(names: Seq<String>) -> Seq<Seq<char>> {
    names.map_values(|name: String| name@)
}

/// The name of the record of worker `id`.
pub fn worker_record(id: usize) -> (name: String)
    ensures
        name@ == worker_record_name(id as nat),
{
    let mut name = String::from_str("client_");
    let digits = decimal_string(id);
    name.append(digits.as_str());
    name.append("_data.txt");
    name
}

/// The name of the global record.
pub fn global_record() -> (name: String)
    ensures
        name@ == global_record_name(),
{
    String::from_str("global_data.txt")
}

/// The names of the records of a run, in reading order.
pub fn record_names(worker_count: usize) -> (names: Vec<String>)
    ensures
        texts(names@) == record_names_spec(worker_count as nat),
{
    let mut names: Vec<String> = Vec::new();
    let mut done: usize = 0;
    while done < worker_count
        invariant
            done <= worker_count,
            names@.len() == done,
            forall|i: int| 0 <= i < done ==> (#[trigger] names@[i])@ == worker_record_name((i + 1) as nat),
        decreases worker_count - done,
    {
        names.push(worker_record(done + 1));
        done = done + 1;
    }
    names.push(global_record());
    assert(texts(names@) =~= record_names_spec(worker_count as nat));
    names
}

/// The text of a worker's record: the list of its observations, then its
/// local mean, each on a line of its own under its label.
pub open spec fn worker_record_text(observations: Seq<char>, mean: Seq<char>) -> Seq<char> {
    "Prices: "@ + observations + "\nAverage: "@ + mean + "\n"@
}

/// The text of the global record: the list of the local means, then the
/// global mean, each on a line of its own under its label.
pub open spec fn global_record_text(means: Seq<char>, global_mean: Seq<char>) -> Seq<char> {
    "Client Averages: "@ + means + "\nGlobal Average: "@ + global_mean + "\n"@
}

/// Lays out a worker's record from the written-out list of its observations
/// and its written-out local mean.
pub fn layout_worker_record(observations: &str, mean: &str) -> (text: String)
    ensures
        text@ == worker_record_text(observations@, mean@),
{
    let mut text = String::from_str("Prices: ");
    text.append(observations);
    text.append("\nAverage: ");
    text.append(mean);
    text.append("\n");
    text
}

/// Lays out the global record from the written-out list of the local means
/// and the written-out global mean.
pub fn layout_global_record(means: &str, global_mean: &str) -> (text: String)
    ensures
        text@ == global_record_text(means@, global_mean@),
{
    let mut text = String::from_str("Client Averages: ");
    text.append(means);
    text.append("\nGlobal Average: ");
    text.append(global_mean);
    text.append("\n");
    text
}

/// What became of reading one record.
#[derive(Clone, Copy, Debug, PartialEq, Eq, Structural)]
pub enum ReadOutcome {
    /// The record was read to its end and printed.
    Printed,
    /// The record could not be opened, or reading it failed part way.
    Failed,
}

/// The record at which a replay stopped, counted from 0 in reading order.
#[derive(Clone, Copy, Debug, PartialEq, Eq, Structural)]
pub struct ReplayError {
    pub record: usize,
}

/// What the reporter asks of its driver.
#[derive(Clone, Copy, Debug, PartialEq, Eq, Structural)]
pub enum ReplayAction {
    /// Read and print the record with this index; report the outcome.
    Read(usize),
    /// Stop: every record was printed.
    Finish,
    /// Stop with an error: the record with this index failed, and none after
    /// it is tried.
    Abort(ReplayError),
}

/// Mathematical model of a [`Reporter`].
pub ghost struct ReporterModel {
    /// How many records there are to read.
    pub total: nat,
    /// How many records were printed in full.
    pub printed: nat,
    /// Whether the record after the printed ones failed.
    pub failed: bool,
}

impl ReporterModel {
    /// The model of a reporter that has read nothing yet.
    pub open spec fn initial(worker_count: nat) -> Self {
        ReporterModel { total: worker_count + 1, printed: 0, failed: false }
    }

    pub open spec fn well_formed(self) -> bool {
        &&& self.printed <= self.total
        &&& self.total <= usize::MAX
        &&& (self.failed ==> self.printed < self.total)
    }

    /// The action that this state calls for.
    pub open spec fn action(self) -> ReplayAction {
        if self.failed {
            ReplayAction::Abort(ReplayError { record: self.printed as usize })
        } else if self.printed < self.total {
            ReplayAction::Read(self.printed as usize)
        } else {
            ReplayAction::Finish
        }
    }

    /// The state after the outcome of one read. Once the replay has stopped,
    /// outcomes change nothing.
    pub open spec fn step(self, outcome: ReadOutcome) -> Self {
        if self.failed || self.printed >= self.total {
            self
        } else {
            match outcome {
                ReadOutcome::Printed => ReporterModel {
                    total: self.total,
                    printed: self.printed + 1,
                    failed: false,
                },
                ReadOutcome::Failed => ReporterModel {
                    total: self.total,
                    printed: self.printed,
                    failed: true,
                },
            }
        }
    }

    /// The state in which a replay ends when record `i` can be read exactly if
    /// `readable[i]` holds.
    pub open spec fn replay(self, readable: Seq<bool>) -> Self
        decreases self.total - self.printed,
    {
        if self.failed || self.printed >= self.total || self.printed >= readable.len() {
            self
        } else if readable[self.printed as int] {
            self.step(ReadOutcome::Printed).replay(readable)
        } else {
            self.step(ReadOutcome::Failed)
        }
    }
}

/// The replay reporter's state: the records to read and how far it has come.
pub struct Reporter {
    names: Vec<String>,
    printed: usize,
    failed: bool,
}

impl View for Reporter {
    type V = ReporterModel;

    closed spec fn view(&self) -> ReporterModel {
        ReporterModel {
            total: self.names@.len(),
            printed: self.printed as nat,
            failed: self.failed,
        }
    }
}

impl Reporter {
    /// The names of the records, in reading order.
    pub closed spec fn names(&self) -> Seq<Seq<char>> {
        texts(self.names@)
    }

    /// Holds of every reporter that this module's functions build.
    pub open spec fn well_formed(&self) -> bool {
        &&& self@.well_formed()
        &&& self@.total >= 1
        &&& self.names() == record_names_spec((self@.total - 1) as nat)
    }

    /// A reporter for the records of a run with `worker_count` workers.
    pub fn new(worker_count: usize) -> (reporter: Self)
        ensures
            reporter.well_formed(),
            reporter@ == ReporterModel::initial(worker_count as nat),
    {
        let names = record_names(worker_count);
        let total: usize = names.len();
        assert(texts(names@).len() == worker_count + 1);
        assert(total == worker_count + 1);
        Reporter { names, printed: 0, failed: false }
    }

    /// What the driver has to do in this state.
    pub fn next_action(&self) -> (action: ReplayAction)
        requires
            self.well_formed(),
        ensures
            action == self@.action(),
    {
        if self.failed {
            ReplayAction::Abort(ReplayError { record: self.printed })
        } else if self.printed < self.names.len() {
            ReplayAction::Read(self.printed)
        } else {
            ReplayAction::Finish
        }
    }

    /// Takes in the outcome of one read and says what to do next.
    pub fn step(&mut self, outcome: ReadOutcome) -> (action: ReplayAction)
        requires
            old(self).well_formed(),
        ensures
            final(self).well_formed(),
            final(self).names() == old(self).names(),
            final(self)@ == old(self)@.step(outcome),
            action == final(self)@.action(),
    {
        if !self.failed && self.printed < self.names.len() {
            match outcome {
                ReadOutcome::Printed => {
                    self.printed = self.printed + 1;
                },
                ReadOutcome::Failed => {
                    self.failed = true;
                },
            }
        }
        self.next_action()
    }

    /// How many records there are to read.
    pub fn record_count(&self) -> (count: usize)
        ensures
            count == self@.total,
    {
        self.names.len()
    }

    /// The name of the record with the given index in reading order.
    pub fn record_name(&self, index: usize) -> (name: &String)
        requires
            index < self@.total,
        ensures
            name@ == self.names()[index as int],
    {
        &self.names[index]
    }

    /// How the replay ended: nothing while records are still to be read, then
    /// success when all were printed, or the record that failed.
    pub fn outcome(&self) -> (result: Option<Result<(), ReplayError>>)
        requires
            self.well_formed(),
        ensures
            result == match self@.action() {
                ReplayAction::Read(_) => None::<Result<(), ReplayError>>,
                ReplayAction::Finish => Some(Ok::<(), ReplayError>(())),
                ReplayAction::Abort(error) => Some(Err::<(), ReplayError>(error)),
            },
    {
        match self.next_action() {
            ReplayAction::Read(_) => None,
            ReplayAction::Finish => Some(Ok(())),
            ReplayAction::Abort(error) => Some(Err(error)),
        }
    }
}

/// The index of the first record that cannot be read, or the number of
/// records when all can.
pub open spec fn first_unreadable(readable: Seq<bool>) -> nat
    decreases readable.len(),
{
    if readable.len() == 0 {
        0
    } else {
        let before = first_unreadable(readable.drop_last());
        if before < readable.len() - 1 || !readable.last() {
            before
        } else {
            readable.len()
        }
    }
}

/// What `first_unreadable` names: every record before it can be read, and the
/// record at it, if there is one, cannot.
pub proof fn lemma_first_unreadable(readable: Seq<bool>)
    ensures
        first_unreadable(readable) <= readable.len(),
        forall|i: int| 0 <= i < first_unreadable(readable) ==> readable[i],
        first_unreadable(readable) < readable.len() ==> !readable[first_unreadable(
            readable,
        ) as int],
    decreases readable.len(),
{
    if readable.len() > 0 {
        lemma_first_unreadable(readable.drop_last());
        let before = first_unreadable(readable.drop_last());
        assert forall|i: int| 0 <= i < first_unreadable(readable) implies readable[i] by {
            if i < readable.len() - 1 {
                assert(readable.drop_last()[i] == readable[i]);
            }
        }
        if before < readable.len() - 1 {
            assert(readable.drop_last()[before as int] == readable[before as int]);
        }
    }
}

proof fn lemma_replay_from(state: ReporterModel, readable: Seq<bool>)
    requires
        state.well_formed(),
        !state.failed,
        readable.len() == state.total,
        state.printed <= first_unreadable(readable),
    ensures
        state.replay(readable).total == state.total,
        state.replay(readable).printed == first_unreadable(readable),
        state.replay(readable).failed == (first_unreadable(readable) < readable.len()),
    decreases state.total - state.printed,
{
    lemma_first_unreadable(readable);
    if state.printed < state.total {
        if readable[state.printed as int] {
            lemma_replay_from(state.step(ReadOutcome::Printed), readable);
        }
    }
}

/// A replay prints every record before the first one that cannot be read and
/// stops there with an error, trying none after it; when every record can be
/// read it prints them all and succeeds.
pub proof fn lemma_replay_stops_at_first_failure(worker_count: nat, readable: Seq<bool>)
    requires
        worker_count < usize::MAX,
        readable.len() == worker_count + 1,
    ensures
        ReporterModel::initial(worker_count).replay(readable).printed == first_unreadable(
            readable,
        ),
        ReporterModel::initial(worker_count).replay(readable).action() == if first_unreadable(
            readable,
        ) < readable.len() {
            ReplayAction::Abort(ReplayError { record: first_unreadable(readable) as usize })
        } else {
            ReplayAction::Finish
        },
{
    lemma_replay_from(ReporterModel::initial(worker_count), readable);
}

} // verus!

//! The sampling worker as a state machine.
//!
//! The driver owns the connection and the clock. It performs the action that
//! the worker asks for and reports what happened as an event; the worker
//! decides what comes next and keeps the log of observations.

use crate::aggregator::WorkerResult;
use crate::decode::DecodeError;
use vstd::prelude::*;

verus! {

/// How a worker's run ended.
#[derive(Clone, Copy, Debug, PartialEq, Eq, Structural)]
pub enum Outcome {
    /// The connection could not be made: nothing is sent, nothing persisted.
    ConnectFailed,
    /// The window closed on an empty log: nothing is sent, nothing persisted.
    NoData,
    /// The window closed on a log with observations: the local mean is sent
    /// and the log is persisted.
    Emitted,
}

/// Where a worker stands in its run.
#[derive(Clone, Copy, Debug, PartialEq, Eq, Structural)]
pub enum Phase {
    /// Waiting for the connection to be made.
    Connecting,
    /// Waiting to learn how long the window has been open.
    CheckingClock,
    /// Waiting for the next message of the feed.
    Reading,
    /// The run is over.
    Done(Outcome),
}

/// What the driver reports to the worker.
#[derive(Debug, PartialEq)]
pub enum WorkerEvent<T> {
    /// The connection could not be made.
    ConnectFailed,
    /// The connection is made; the window opens now.
    Connected,
    /// The window has been open for this many whole seconds.
    Clock(u64),
    /// A message arrived and decoded to this observation.
    Observed(T),
    /// A message arrived and could not be decoded.
    Rejected(DecodeError),
    /// The feed closed, failed, or delivered something that is no text message.
    ReadFailed,
}

/// What the worker asks of the driver.
#[derive(Clone, Copy, Debug, PartialEq, Eq, Structural)]
pub enum WorkerAction {
    /// Open the connection; report `Connected` or `ConnectFailed`.
    Connect,
    /// Read the clock; report `Clock`.
    ReadClock,
    /// Wait for the next message and decode it; report `Observed`, `Rejected`
    /// or `ReadFailed`.
    ReadMessage,
    /// Report that the connection failed, and stop.
    ReportConnectError,
    /// Report that no data was collected, and stop.
    ReportNoData,
    /// Compute the mean of the log, send it with the worker's identifier,
    /// persist the log and the mean, and stop.
    Emit,
}

/// Mathematical model of a [`Worker`].
pub ghost struct WorkerModel<T> {
    pub id: nat,
    /// The length of the observation window, in whole seconds.
    pub duration: nat,
    pub phase: Phase,
    /// The observations collected so far, oldest first.
    pub log: Seq<T>,
}

impl<T> WorkerModel<T> {
    /// The model of a worker that has done nothing yet.
    pub open spec fn initial(id: nat, duration: nat) -> Self {
        WorkerModel { id, duration, phase: Phase::Connecting, log: Seq::empty() }
    }

    pub open spec fn well_formed(self) -> bool {
        &&& self.id >= 1
        &&& (self.phase == Phase::Connecting ==> self.log.len() == 0)
        &&& (self.phase == Phase::Reading ==> self.duration > 0)
        &&& (self.phase == Phase::Done(Outcome::ConnectFailed) ==> self.log.len() == 0)
        &&& (self.phase == Phase::Done(Outcome::NoData) ==> self.log.len() == 0)
        &&& (self.phase == Phase::Done(Outcome::Emitted) ==> self.log.len() > 0)
    }

    /// The same worker in another phase.
    pub open spec fn at(self, phase: Phase) -> Self {
        WorkerModel { id: self.id, duration: self.duration, phase, log: self.log }
    }

    /// The state once the window is closed: a result is emitted exactly when
    /// the log holds an observation.
    pub open spec fn closed(self) -> Self {
        if self.log.len() == 0 {
            self.at(Phase::Done(Outcome::NoData))
        } else {
            self.at(Phase::Done(Outcome::Emitted))
        }
    }

    /// The state after one event. An event that the phase does not wait for
    /// changes nothing.
    pub open spec fn step(self, event: WorkerEvent<T>) -> Self {
        match (self.phase, event) {
            (Phase::Connecting, WorkerEvent::ConnectFailed) => self.at(
                Phase::Done(Outcome::ConnectFailed),
            ),
            (Phase::Connecting, WorkerEvent::Connected) => self.at(Phase::CheckingClock),
            (Phase::CheckingClock, WorkerEvent::Clock(elapsed)) => if elapsed < self.duration {
                self.at(Phase::Reading)
            } else {
                self.closed()
            },
            (Phase::Reading, WorkerEvent::Observed(price)) => WorkerModel {
                id: self.id,
                duration: self.duration,
                phase: Phase::CheckingClock,
                log: self.log.push(price),
            },
            (Phase::Reading, WorkerEvent::Rejected(_)) => self.at(Phase::CheckingClock),
            (Phase::Reading, WorkerEvent::ReadFailed) => self.closed(),
            _ => self,
        }
    }

    /// The action that this state calls for.
    pub open spec fn action(self) -> WorkerAction {
        match self.phase {
            Phase::Connecting => WorkerAction::Connect,
            Phase::CheckingClock => WorkerAction::ReadClock,
            Phase::Reading => WorkerAction::ReadMessage,
            Phase::Done(Outcome::ConnectFailed) => WorkerAction::ReportConnectError,
            Phase::Done(Outcome::NoData) => WorkerAction::ReportNoData,
            Phase::Done(Outcome::Emitted) => WorkerAction::Emit,
        }
    }

    /// The state after a sequence of events, taken oldest first.
    pub open spec fn run(self, events: Seq<WorkerEvent<T>>) -> Self
        decreases events.len(),
    {
        if events.len() == 0 {
            self
        } else {
            self.run(events.drop_last()).step(events.last())
        }
    }
}

/// One sampling worker: its identifier, its window, its phase and its log.
pub struct Worker<T> {
    id: usize,
    duration: u64,
    phase: Phase,
    log: Vec<T>,
}

impl<T> View for Worker<T> {
    type V = WorkerModel<T>;

    closed spec fn view(&self) -> WorkerModel<T> {
        WorkerModel {
            id: self.id as nat,
            duration: self.duration as nat,
            phase: self.phase,
            log: self.log@,
        }
    }
}

impl<T> Worker<T> {
    /// Holds of every worker that this module's functions build.
    pub open spec fn well_formed(&self) -> bool {
        self@.well_formed()
    }

    /// A worker with a positive identifier and a window of `duration` whole
    /// seconds, about to connect.
    pub fn new(id: usize, duration: u64) -> (worker: Self)
        requires
            id >= 1,
        ensures
            worker.well_formed(),
            worker@ == WorkerModel::<T>::initial(id as nat, duration as nat),
    {
        Worker { id, duration, phase: Phase::Connecting, log: Vec::new() }
    }

    /// What the driver has to do in this state.
    pub fn next_action(&self) -> (action: WorkerAction)
        ensures
            action == self@.action(),
    {
        match self.phase {
            Phase::Connecting => WorkerAction::Connect,
            Phase::CheckingClock => WorkerAction::ReadClock,
            Phase::Reading => WorkerAction::ReadMessage,
            Phase::Done(Outcome::ConnectFailed) => WorkerAction::ReportConnectError,
            Phase::Done(Outcome::NoData) => WorkerAction::ReportNoData,
            Phase::Done(Outcome::Emitted) => WorkerAction::Emit,
        }
    }

    fn close(&mut self)
        requires
            old(self).well_formed(),
        ensures
            final(self).well_formed(),
            final(self)@ == old(self)@.closed(),
    {
        if self.log.len() == 0 {
            self.phase = Phase::Done(Outcome::NoData);
        } else {
            self.phase = Phase::Done(Outcome::Emitted);
        }
    }

    /// Takes in one event and says what to do next.
    pub fn step(&mut self, event: WorkerEvent<T>) -> (action: WorkerAction)
        requires
            old(self).well_formed(),
        ensures
            final(self).well_formed(),
            final(self)@ == old(self)@.step(event),
            action == final(self)@.action(),
    {
        match self.phase {
            Phase::Connecting => match event {
                WorkerEvent::ConnectFailed => {
                    self.phase = Phase::Done(Outcome::ConnectFailed);
                },
                WorkerEvent::Connected => {
                    self.phase = Phase::CheckingClock;
                },
                _ => {},
            },
            Phase::CheckingClock => match event {
                WorkerEvent::Clock(elapsed) => {
                    if elapsed < self.duration {
                        self.phase = Phase::Reading;
                    } else {
                        self.close();
                    }
                },
                _ => {},
            },
            Phase::Reading => match event {
                WorkerEvent::Observed(price) => {
                    self.log.push(price);
                    self.phase = Phase::CheckingClock;
                },
                WorkerEvent::Rejected(_) => {
                    self.phase = Phase::CheckingClock;
                },
                WorkerEvent::ReadFailed => {
                    self.close();
                },
                _ => {},
            },
            Phase::Done(_) => {},
        }
        self.next_action()
    }

    pub fn id(&self) -> (id: usize)
        ensures
            id == self@.id,
    {
        self.id
    }

    /// The length of the observation window, in whole seconds.
    pub fn duration(&self) -> (duration: u64)
        ensures
            duration == self@.duration,
    {
        self.duration
    }

    pub fn phase(&self) -> (phase: Phase)
        ensures
            phase == self@.phase,
    {
        self.phase
    }

    /// The observations collected so far, oldest first.
    pub fn observations(&self) -> (log: &Vec<T>)
        ensures
            log@ == self@.log,
    {
        &self.log
    }

    /// The result to hand to the aggregator: there is one exactly when the run
    /// ended with observations. Its local mean is what `mean_of` computes from
    /// the whole log; `mean_of` is called only on a log that is not empty.
    pub fn result<F: FnOnce(&Vec<T>) -> T>(&self, mean_of: F) -> (result: Option<WorkerResult<T>>)
        requires
            self.well_formed(),
            forall|log: &Vec<T>| log@.len() > 0 ==> #[trigger] mean_of.requires((log,)),
        ensures
            result is Some <==> self@.phase == Phase::Done(Outcome::Emitted),
            result is Some ==> result->0.worker_id == self@.id,
            result is Some ==> exists|log: &Vec<T>|
                log@ == self@.log && #[trigger] mean_of.ensures((log,), result->0.local_mean),
    {
        match self.phase {
            Phase::Done(Outcome::Emitted) => {
                let local_mean = mean_of(&self.log);
                let result = Some(WorkerResult { worker_id: self.id, local_mean });
                assert(exists|log: &Vec<T>|
                    log@ == self@.log && #[trigger] mean_of.ensures(
                        (log,),
                        result->0.local_mean,
                    )) by {
                    let log = &self.log;
                    assert(log@ == self@.log && mean_of.ensures((log,), result->0.local_mean));
                }
                result
            },
            _ => None,
        }
    }
}

/// Whether a message's decoding yields an observation.
pub type Frame<T> = Result<T, DecodeError>;

/// The event that reports one decoded message.
pub open spec fn frame_event<T>(frame: Frame<T>) -> WorkerEvent<T> {
    match frame {
        Ok(price) => WorkerEvent::Observed(price),
        Err(error) => WorkerEvent::Rejected(error),
    }
}

/// The observations among a sequence of decoded messages, in the same order.
pub open spec fn accepted<T>(frames: Seq<(u64, Frame<T>)>) -> Seq<T>
    decreases frames.len(),
{
    if frames.len() == 0 {
        Seq::empty()
    } else {
        match frames.last().1 {
            Ok(price) => accepted(frames.drop_last()).push(price),
            Err(_) => accepted(frames.drop_last()),
        }
    }
}

/// The events of a stretch of sampling: for each message, the clock reading
/// taken before it and then the message itself.
pub open spec fn sampling_events<T>(frames: Seq<(u64, Frame<T>)>) -> Seq<WorkerEvent<T>>
    decreases frames.len(),
{
    if frames.len() == 0 {
        Seq::empty()
    } else {
        sampling_events(frames.drop_last()).push(WorkerEvent::Clock(frames.last().0)).push(
            frame_event(frames.last().1),
        )
    }
}

/// Every run from the initial state keeps the state well formed. In
/// particular a worker whose log is empty never ends in `Emitted`, and one that
/// could not connect holds no observation.
pub proof fn lemma_run_well_formed<T>(id: nat, duration: nat, events: Seq<WorkerEvent<T>>)
    requires
        id >= 1,
    ensures
        WorkerModel::<T>::initial(id, duration).run(events).well_formed(),
        WorkerModel::<T>::initial(id, duration).run(events).id == id,
        WorkerModel::<T>::initial(id, duration).run(events).duration == duration,
    decreases events.len(),
{
    if events.len() > 0 {
        lemma_run_well_formed(id, duration, events.drop_last());
    }
}

/// A worker that is told of no observation collects none and never emits a
/// result, whatever else happens.
pub proof fn lemma_no_observation_no_emission<T>(
    id: nat,
    duration: nat,
    events: Seq<WorkerEvent<T>>,
)
    requires
        id >= 1,
        forall|i: int| 0 <= i < events.len() ==> !(#[trigger] events[i] is Observed),
    ensures
        WorkerModel::<T>::initial(id, duration).run(events).log.len() == 0,
        WorkerModel::<T>::initial(id, duration).run(events).phase != Phase::Done(Outcome::Emitted),
    decreases events.len(),
{
    lemma_run_well_formed(id, duration, events);
    if events.len() > 0 {
        let front = events.drop_last();
        assert forall|i: int| 0 <= i < front.len() implies !(#[trigger] front[i] is Observed) by {
            assert(front[i] == events[i]);
        }
        lemma_no_observation_no_emission(id, duration, front);
        assert(!(events[events.len() - 1] is Observed));
    }
}

/// A window of zero seconds yields no observation: the worker never reads a
/// message, so it never emits a result.
pub proof fn lemma_zero_duration_collects_nothing<T>(id: nat, events: Seq<WorkerEvent<T>>)
    requires
        id >= 1,
    ensures
        WorkerModel::<T>::initial(id, 0).run(events).log.len() == 0,
        WorkerModel::<T>::initial(id, 0).run(events).phase != Phase::Reading,
        WorkerModel::<T>::initial(id, 0).run(events).phase != Phase::Done(Outcome::Emitted),
    decreases events.len(),
{
    lemma_run_well_formed(id, 0, events);
    if events.len() > 0 {
        lemma_zero_duration_collects_nothing(id, events.drop_last());
    }
}

/// A worker emits at most once: when its run is over, no event changes its
/// state any more.
pub proof fn lemma_done_is_final<T>(state: WorkerModel<T>, events: Seq<WorkerEvent<T>>)
    requires
        state.phase is Done,
    ensures
        state.run(events) == state,
    decreases events.len(),
{
    if events.len() > 0 {
        lemma_done_is_final(state, events.drop_last());
    }
}

/// Messages that fail to decode are skipped: while every clock reading lies
/// inside the window, the log grows by exactly the observations among the
/// messages, in their order, and the worker goes on sampling.
pub proof fn lemma_rejected_frames_are_skipped<T>(
    state: WorkerModel<T>,
    frames: Seq<(u64, Frame<T>)>,
)
    requires
        state.phase == Phase::CheckingClock,
        forall|i: int| 0 <= i < frames.len() ==> (#[trigger] frames[i]).0 < state.duration,
    ensures
        state.run(sampling_events(frames)).log == state.log + accepted(frames),
        state.run(sampling_events(frames)).phase == Phase::CheckingClock,
        state.run(sampling_events(frames)).duration == state.duration,
        state.run(sampling_events(frames)).id == state.id,
    decreases frames.len(),
{
    if frames.len() == 0 {
        assert(state.log + accepted(frames) =~= state.log);
    } else {
        let front = frames.drop_last();
        let (tick, frame) = frames.last();
        assert forall|i: int| 0 <= i < front.len() implies (#[trigger] front[i]).0
            < state.duration by {
            assert(front[i] == frames[i]);
        }
        lemma_rejected_frames_are_skipped(state, front);
        let before = state.run(sampling_events(front));
        let clocked = sampling_events(front).push(WorkerEvent::Clock(tick));
        let all = sampling_events(frames);
        assert(all == clocked.push(frame_event(frame)));
        assert(all.drop_last() =~= clocked);
        assert(clocked.drop_last() =~= sampling_events(front));
        assert(state.run(clocked) == before.step(WorkerEvent::Clock(tick)));
        assert(state.run(all) == state.run(clocked).step(frame_event(frame)));
        assert(frames[frames.len() - 1].0 < state.duration);
        match frame {
            Ok(price) => {
                assert(state.log + accepted(frames) =~= (state.log + accepted(front)).push(price));
            },
            Err(_) => {},
        }
    }
}

} // verus!

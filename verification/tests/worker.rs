use feed_sampler::aggregator::WorkerResult;
use feed_sampler::decode::{decode, DecodeError};
use feed_sampler::worker::{Outcome, Phase, Worker, WorkerAction, WorkerEvent};

fn mean(values: &Vec<f64>) -> f64 {
    values.iter().sum::<f64>() / values.len() as f64
}

fn event_of(message: &str) -> WorkerEvent<f64> {
    match decode(message, |text: String| text.parse::<f64>().ok()) {
        Ok(price) => WorkerEvent::Observed(price),
        Err(error) => WorkerEvent::Rejected(error),
    }
}

fn trade(price: &str) -> String {
    format!("{{\"e\":\"trade\",\"s\":\"BTCUSDT\",\"p\":\"{}\",\"q\":\"0.5\"}}", price)
}

#[test]
fn malformed_frame_is_skipped_among_ten_good_ones() {
    let mut worker: Worker<f64> = Worker::new(1, 10);
    assert_eq!(worker.next_action(), WorkerAction::Connect);
    assert_eq!(worker.step(WorkerEvent::Connected), WorkerAction::ReadClock);
    let mut expected: Vec<f64> = Vec::new();
    for i in 0..11 {
        assert_eq!(worker.step(WorkerEvent::Clock(0)), WorkerAction::ReadMessage);
        let message = if i == 4 {
            String::from("{\"e\":\"trade\",\"s\":\"BTCUSDT\",\"q\":\"0.5\"}")
        } else {
            expected.push(60000.0 + i as f64);
            trade(&format!("{}.0", 60000 + i))
        };
        assert_eq!(worker.step(event_of(&message)), WorkerAction::ReadClock);
    }
    assert_eq!(worker.step(WorkerEvent::Clock(10)), WorkerAction::Emit);
    assert_eq!(worker.observations().len(), 10);
    assert_eq!(worker.observations(), &expected);
    assert_eq!(worker.phase(), Phase::Done(Outcome::Emitted));
    assert_eq!(
        worker.result(mean),
        Some(WorkerResult { worker_id: 1, local_mean: 60005.1 })
    );
}

#[test]
fn window_of_zero_seconds_collects_nothing() {
    let mut worker: Worker<f64> = Worker::new(2, 0);
    assert_eq!(worker.duration(), 0);
    assert_eq!(worker.step(WorkerEvent::Connected), WorkerAction::ReadClock);
    assert_eq!(worker.step(WorkerEvent::Clock(0)), WorkerAction::ReportNoData);
    assert_eq!(worker.phase(), Phase::Done(Outcome::NoData));
    assert!(worker.observations().is_empty());
    assert_eq!(worker.result(mean), None);
}

#[test]
fn failed_connection_ends_the_run_without_a_result() {
    let mut worker: Worker<f64> = Worker::new(3, 5);
    assert_eq!(worker.id(), 3);
    assert_eq!(worker.step(WorkerEvent::ConnectFailed), WorkerAction::ReportConnectError);
    assert_eq!(worker.phase(), Phase::Done(Outcome::ConnectFailed));
    assert_eq!(worker.result(mean), None);
}

#[test]
fn read_failure_closes_the_window_early() {
    let mut worker: Worker<f64> = Worker::new(4, 100);
    worker.step(WorkerEvent::Connected);
    assert_eq!(worker.step(WorkerEvent::Clock(0)), WorkerAction::ReadMessage);
    assert_eq!(worker.step(WorkerEvent::Observed(2.0)), WorkerAction::ReadClock);
    assert_eq!(worker.step(WorkerEvent::Clock(1)), WorkerAction::ReadMessage);
    assert_eq!(worker.step(WorkerEvent::Observed(4.0)), WorkerAction::ReadClock);
    assert_eq!(worker.step(WorkerEvent::Clock(1)), WorkerAction::ReadMessage);
    assert_eq!(worker.step(WorkerEvent::ReadFailed), WorkerAction::Emit);
    assert_eq!(worker.observations(), &vec![2.0, 4.0]);
    let result = worker.result(mean).unwrap();
    assert_eq!(result.worker_id, 4);
    assert_eq!(result.local_mean, 3.0);
}

#[test]
fn read_failure_on_an_empty_log_reports_no_data() {
    let mut worker: Worker<f64> = Worker::new(5, 100);
    worker.step(WorkerEvent::Connected);
    worker.step(WorkerEvent::Clock(0));
    assert_eq!(worker.step(WorkerEvent::Rejected(DecodeError::ParseError)), WorkerAction::ReadClock);
    worker.step(WorkerEvent::Clock(3));
    assert_eq!(worker.step(WorkerEvent::ReadFailed), WorkerAction::ReportNoData);
    assert_eq!(worker.result(mean), None);
}

#[test]
fn window_closes_when_the_clock_reaches_the_duration() {
    let mut worker: Worker<f64> = Worker::new(1, 2);
    worker.step(WorkerEvent::Connected);
    assert_eq!(worker.step(WorkerEvent::Clock(1)), WorkerAction::ReadMessage);
    assert_eq!(worker.step(WorkerEvent::Observed(1.25)), WorkerAction::ReadClock);
    assert_eq!(worker.step(WorkerEvent::Clock(2)), WorkerAction::Emit);
}

#[test]
fn finished_worker_takes_no_more_events() {
    let mut worker: Worker<f64> = Worker::new(1, 2);
    worker.step(WorkerEvent::Connected);
    worker.step(WorkerEvent::Clock(0));
    worker.step(WorkerEvent::Observed(7.0));
    assert_eq!(worker.step(WorkerEvent::Clock(2)), WorkerAction::Emit);
    assert_eq!(worker.step(WorkerEvent::Observed(9.0)), WorkerAction::Emit);
    assert_eq!(worker.step(WorkerEvent::Connected), WorkerAction::Emit);
    assert_eq!(worker.observations(), &vec![7.0]);
}

#[test]
fn events_that_the_phase_does_not_await_change_nothing() {
    let mut worker: Worker<f64> = Worker::new(1, 2);
    assert_eq!(worker.step(WorkerEvent::Observed(1.0)), WorkerAction::Connect);
    assert_eq!(worker.step(WorkerEvent::Clock(5)), WorkerAction::Connect);
    worker.step(WorkerEvent::Connected);
    assert_eq!(worker.step(WorkerEvent::Observed(1.0)), WorkerAction::ReadClock);
    assert!(worker.observations().is_empty());
    assert_eq!(worker.phase(), Phase::CheckingClock);
}

#[test]
fn local_mean_is_taken_over_the_whole_log() {
    let mut worker: Worker<f64> = Worker::new(9, 60);
    worker.step(WorkerEvent::Connected);
    for price in [1.0, 2.0, 4.5] {
        worker.step(WorkerEvent::Clock(0));
        worker.step(WorkerEvent::Observed(price));
    }
    assert_eq!(worker.step(WorkerEvent::Clock(60)), WorkerAction::Emit);
    assert_eq!(
        worker.result(mean),
        Some(WorkerResult { worker_id: 9, local_mean: 2.5 })
    );
    let mut single: Worker<f64> = Worker::new(1, 1);
    single.step(WorkerEvent::Connected);
    single.step(WorkerEvent::Clock(0));
    single.step(WorkerEvent::Observed(60000.125));
    single.step(WorkerEvent::Clock(1));
    assert_eq!(single.result(mean).unwrap().local_mean, 60000.125);
}

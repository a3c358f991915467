use feed_sampler::config::{configure, parse_mode, parse_times, Config, Mode, UsageError};
use feed_sampler::coordinator::{schedule, Step};
use feed_sampler::decimal::{decimal_string, parse_u64};

#[test]
fn mode_texts() {
    assert_eq!(parse_mode("cache"), Some(Mode::Collect));
    assert_eq!(parse_mode("read"), Some(Mode::Replay));
    assert_eq!(parse_mode("write"), None);
    assert_eq!(parse_mode(""), None);
    assert_eq!(parse_mode("Cache"), None);
    assert_eq!(parse_mode("cache "), None);
}

#[test]
fn window_texts() {
    assert_eq!(parse_times("1"), 1);
    assert_eq!(parse_times("10"), 10);
    assert_eq!(parse_times("0"), 0);
    assert_eq!(parse_times("+7"), 7);
    assert_eq!(parse_times("007"), 7);
    assert_eq!(parse_times("18446744073709551615"), u64::MAX);
}

#[test]
fn window_text_that_spells_no_number_means_one_second() {
    assert_eq!(parse_times("ten"), 1);
    assert_eq!(parse_times(""), 1);
    assert_eq!(parse_times("+"), 1);
    assert_eq!(parse_times("-3"), 1);
    assert_eq!(parse_times(" 5"), 1);
    assert_eq!(parse_times("5s"), 1);
    assert_eq!(parse_times("2.5"), 1);
    assert_eq!(parse_times("18446744073709551616"), 1);
    assert_eq!(parse_times("99999999999999999999999"), 1);
    assert_eq!(parse_times("\u{0663}"), 1);
}

#[test]
fn parse_u64_agrees_with_the_standard_parser() {
    let texts = [
        "0", "9", "10", "+0", "+42", "0042", "", "+", "++1", "-1", "1 ", "1_000", "0x10",
        "18446744073709551615", "18446744073709551616", "184467440737095516150",
        "00000000000000000000000000000000000001", "\u{ff11}", "1e3",
    ];
    for text in texts {
        assert_eq!(parse_u64(text), text.parse::<u64>().ok());
    }
}

#[test]
fn decimal_string_writes_shortest_numerals() {
    assert_eq!(decimal_string(0), "0");
    assert_eq!(decimal_string(7), "7");
    assert_eq!(decimal_string(10), "10");
    assert_eq!(decimal_string(905), "905");
    assert_eq!(decimal_string(usize::MAX), usize::MAX.to_string());
    assert_eq!(parse_u64(&decimal_string(123456789)), Some(123456789));
}

#[test]
fn configure_builds_the_run() {
    assert_eq!(
        configure("cache", "30", 5),
        Ok(Config { mode: Mode::Collect, duration: 30, worker_count: 5 })
    );
    assert_eq!(
        configure("read", "x", 5),
        Ok(Config { mode: Mode::Replay, duration: 1, worker_count: 5 })
    );
    assert_eq!(
        configure("both", "30", 5),
        Err(UsageError { mode: String::from("both") })
    );
}

#[test]
fn collecting_run_spawns_every_worker_between_the_aggregator_and_the_joins() {
    let config = Config { mode: Mode::Collect, duration: 3, worker_count: 5 };
    assert_eq!(
        schedule(&config),
        vec![
            Step::OpenChannel { capacity: 5 },
            Step::SpawnAggregator { expected: 5 },
            Step::SpawnWorker { id: 1, duration: 3 },
            Step::SpawnWorker { id: 2, duration: 3 },
            Step::SpawnWorker { id: 3, duration: 3 },
            Step::SpawnWorker { id: 4, duration: 3 },
            Step::SpawnWorker { id: 5, duration: 3 },
            Step::JoinWorkers,
            Step::JoinAggregator,
        ]
    );
}

#[test]
fn collecting_run_without_workers_still_runs_the_aggregator() {
    let config = Config { mode: Mode::Collect, duration: 3, worker_count: 0 };
    assert_eq!(
        schedule(&config),
        vec![
            Step::OpenChannel { capacity: 0 },
            Step::SpawnAggregator { expected: 0 },
            Step::JoinWorkers,
            Step::JoinAggregator,
        ]
    );
}

#[test]
fn replaying_run_only_replays() {
    let config = Config { mode: Mode::Replay, duration: 1, worker_count: 5 };
    assert_eq!(schedule(&config), vec![Step::Replay { worker_count: 5 }]);
}

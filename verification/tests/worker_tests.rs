use new_tube::background_video_fetcher::{
    BackgroundVideoFetcher, BackgroundVideoFetcherError, PollSchedule, StopSignal,
};

#[test]
fn stop_before_start_reports_not_running() {
    let mut worker = BackgroundVideoFetcher::new();
    let result = worker.stop();
    assert!(matches!(
        result,
        Err(BackgroundVideoFetcherError::FailedToStopBecauseWorkerNotStarted)
    ));
}

#[test]
fn start_stop_cycle() {
    let mut worker = BackgroundVideoFetcher::new();
    assert!(!worker.worker_already_started());
    let stopped_previous = worker.start();
    assert!(!stopped_previous);
    assert!(worker.worker_already_started());
    assert!(worker.stop().is_ok());
    assert!(!worker.worker_already_started());
}

#[test]
fn restart_stops_previous_loop_first() {
    let mut worker = BackgroundVideoFetcher::new();
    assert!(!worker.start());
    // Starting again while running means restart: the caller must signal
    // the previous loop before spawning the next one.
    assert!(worker.start());
    assert!(worker.worker_already_started());
}

#[test]
fn stop_twice_reports_not_running_second_time() {
    let mut worker = BackgroundVideoFetcher::new();
    worker.start();
    assert!(worker.stop().is_ok());
    assert!(matches!(
        worker.stop(),
        Err(BackgroundVideoFetcherError::FailedToStopBecauseWorkerNotStarted)
    ));
}

#[test]
fn stop_signal_meanings() {
    assert!(BackgroundVideoFetcher::worker_must_be_stopped(&StopSignal::Received));
    assert!(BackgroundVideoFetcher::worker_must_be_stopped(&StopSignal::Disconnected));
    assert!(!BackgroundVideoFetcher::worker_must_be_stopped(&StopSignal::Empty));
}

#[test]
fn poll_schedule_polls_once_per_period() {
    let mut schedule = PollSchedule::new(3);
    let polls: Vec<bool> = (0..9).map(|_| schedule.tick()).collect();
    assert_eq!(polls, vec![false, false, true, false, false, true, false, false, true]);
}

#[test]
fn poll_schedule_every_tick() {
    let mut schedule = PollSchedule::new(1);
    assert!(schedule.tick());
    assert!(schedule.tick());
}

#[test]
fn config_ticks_per_poll_floors_at_one() {
    let config = new_tube::config::Config { bot_fetch_schedule: 5 };
    // five minutes of 500 ms ticks
    assert_eq!(config.ticks_per_poll(500), 600);
    let zero = new_tube::config::Config { bot_fetch_schedule: 0 };
    assert_eq!(zero.ticks_per_poll(500), 1);
}

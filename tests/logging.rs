use gps_telemetry::logfile::{log_file_name, log_row, LOG_HEADER};
use gps_telemetry::logger::{GpsLogger, LoggerState};
use gps_telemetry::state::{logging_reply, AppState};
use gps_telemetry::throttle::{Throttle, LOGGING_PERIOD_NS};

const MS: u64 = 1_000_000;

#[test]
fn logger_starts_disabled() {
    let logger: GpsLogger<u32> = GpsLogger::new();
    assert!(!logger.active());
    assert!(matches!(logger.state, LoggerState::Disabled));
}

#[test]
fn starting_twice_spawns_one_consumer() {
    let mut logger: GpsLogger<u32> = GpsLogger::new();
    let mut spawned = 0;
    assert!(logger.start(|| {
        spawned += 1;
        7
    }));
    assert!(!logger.start(|| {
        spawned += 1;
        8
    }));
    assert_eq!(spawned, 1);
    assert!(logger.active());
    assert!(matches!(logger.state, LoggerState::Enabled(7)));
}

#[test]
fn stopping_twice_is_a_noop_the_second_time() {
    let mut logger: GpsLogger<u32> = GpsLogger::new();
    logger.start(|| 1);
    logger.stop();
    assert!(!logger.active());
    logger.stop();
    assert!(!logger.active());
}

#[test]
fn points_pushed_while_disabled_are_dropped() {
    let mut logger: GpsLogger<u32> = GpsLogger::new();
    assert_eq!(logger.send_point("early"), None);
    logger.start(|| 5);
    assert_eq!(logger.send_point("late"), Some((&5, "late")));
    logger.stop();
    assert_eq!(logger.send_point("after"), None);
}

#[test]
fn a_new_start_gets_a_fresh_consumer() {
    let mut logger: GpsLogger<u32> = GpsLogger::new();
    logger.start(|| 1);
    logger.stop();
    assert!(logger.start(|| 2));
    assert_eq!(logger.send_point(0u8), Some((&2, 0u8)));
}

#[test]
fn burst_within_one_period_writes_one_row() {
    let mut t = Throttle::new(0);
    let times = [600 * MS, 650 * MS, 700 * MS, 900 * MS, 1099 * MS];
    let written = times.iter().filter(|&&now| t.should_write(now)).count();
    assert_eq!(written, 1);
    assert_eq!(t.last_written, 600 * MS);
}

#[test]
fn burst_right_after_start_writes_nothing() {
    let mut t = Throttle::new(0);
    let written = [0, 100 * MS, 499 * MS].iter().filter(|&&now| t.should_write(now)).count();
    assert_eq!(written, 0);
}

#[test]
fn exactly_one_period_is_enough() {
    assert_eq!(LOGGING_PERIOD_NS, 500 * MS);
    let mut t = Throttle::new(1_000);
    assert!(!t.should_write(1_000 + LOGGING_PERIOD_NS - 1));
    assert!(t.should_write(1_000 + LOGGING_PERIOD_NS));
    assert_eq!(t.last_written, 1_000 + LOGGING_PERIOD_NS);
}

#[test]
fn earlier_clock_reading_writes_nothing() {
    let mut t = Throttle::new(10 * LOGGING_PERIOD_NS);
    assert!(!t.should_write(0));
    assert_eq!(t.last_written, 10 * LOGGING_PERIOD_NS);
}

#[test]
fn enable_push_three_disable() {
    // The consumer starts a second before the three points arrive, at 0, 100
    // and 600 ms of the session.
    let mut state: AppState<u32, u32> = AppState::new();
    assert!(state.logging_query(Some(true), || 1));
    let mut t = Throttle::new(0);
    let base = 1_000 * MS;
    let mut rows = Vec::new();
    for (n, at) in [0u64, 100, 600].iter().enumerate() {
        if let Some((_, point)) = state.logging.send_point(n) {
            if t.should_write(base + at * MS) {
                rows.push(point);
            }
        }
    }
    assert_eq!(rows, vec![0, 2]);
    assert!(!state.logging_query(Some(false), || 2));
    assert!(!state.logging_query(None, || 3));
    assert!(!state.logging.active());
}

#[test]
fn logging_query_without_value_reports_state() {
    let mut state: AppState<u32, u32> = AppState::new();
    assert!(!state.logging_query(None, || 1));
    assert!(state.logging_query(Some(true), || 1));
    assert!(state.logging_query(None, || 2));
    assert!(matches!(state.logging.state, LoggerState::Enabled(1)));
}

#[test]
fn location_is_latest_wins() {
    let mut state: AppState<u32, u32> = AppState::new();
    assert_eq!(state.location(), None);
    state.update_location(3);
    state.update_location(9);
    assert_eq!(state.location(), Some(9));
}

#[test]
fn reply_text() {
    assert_eq!(logging_reply(true), "true");
    assert_eq!(logging_reply(false), "false");
}

#[test]
fn log_file_layout() {
    assert_eq!(LOG_HEADER, "utc_d,utc_t,lat,lon,alt,head\n");
    assert_eq!(
        log_file_name("2023-11-14T22-13-20.5"),
        "logs/log-2023-11-14T22-13-20.5.csv"
    );
    assert_eq!(
        log_row("2023/11/14", "22:13:20", "0", "0", "10", "0"),
        "2023/11/14,22:13:20,0,0,10,0\n"
    );
}

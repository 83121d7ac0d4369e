use ariadne::error::AriadneErrors;
use ariadne::scheduler::{register_saving_scheduler, saving_interval, FlushInterval, Scheduler};
use ariadne::settings::{default_duration, Database, DatabaseType, Log, Server, Settings, ENV};

fn settings_with_frequency(frequency: &str) -> Settings {
    Settings {
        maxmind: None,
        server: Server { port: 8080, host: "127.0.0.1".to_string() },
        database: Database {
            db_type: DatabaseType::ClickHouse,
            url: "tcp://127.0.0.1:9000".to_string(),
            batching: true,
            batching_frequency: frequency.to_string(),
        },
        log: Log { level: "info".to_string() },
        env: ENV::Testing,
    }
}

#[test]
fn interval_parses_plain_seconds() {
    assert_eq!(saving_interval("5s"), Ok(FlushInterval { secs: 5, nanos: 0 }));
}

#[test]
fn interval_parses_minutes_and_subseconds() {
    assert_eq!(saving_interval("2 minutes"), Ok(FlushInterval { secs: 120, nanos: 0 }));
    assert_eq!(
        saving_interval("1500ms"),
        Ok(FlushInterval { secs: 1, nanos: 500_000_000 })
    );
}

#[test]
fn interval_rejects_zero() {
    assert_eq!(saving_interval("0s"), Err(AriadneErrors::Configuration));
}

#[test]
fn interval_rejects_garbage() {
    assert_eq!(saving_interval("soon"), Err(AriadneErrors::Configuration));
    assert_eq!(saving_interval(""), Err(AriadneErrors::Configuration));
}

#[test]
fn scheduler_is_built_from_the_configuration() {
    let config = settings_with_frequency("30s");
    let mut scheduler = register_saving_scheduler(&config).expect("a parsable positive interval");
    assert_eq!(scheduler.interval_parts(), (30, 0));
    assert!(scheduler.try_begin_tick());
}

#[test]
fn unparsable_frequency_is_fatal_at_startup() {
    let config = settings_with_frequency("whenever");
    assert!(register_saving_scheduler(&config).is_err());
}

#[test]
fn ticks_never_overlap() {
    let mut scheduler = Scheduler::new(FlushInterval { secs: 1, nanos: 0 });
    // The timer fires: the first request is granted.
    assert!(scheduler.try_begin_tick());
    // The timer fires again while the tick still runs: deferred.
    assert!(!scheduler.try_begin_tick());
    assert!(!scheduler.try_begin_tick());
    scheduler.finish_tick();
    // Once the tick completed, the next firing is granted again.
    assert!(scheduler.try_begin_tick());
}

#[test]
fn default_duration_is_five_seconds() {
    assert_eq!(default_duration(), FlushInterval { secs: 5, nanos: 0 });
}

#[test]
fn env_is_read_from_its_name() {
    assert_eq!(ENV::from("Testing"), ENV::Testing);
    assert_eq!(ENV::from("Production"), ENV::Production);
    assert_eq!(ENV::from("Development"), ENV::Development);
    assert_eq!(ENV::from("anything else"), ENV::Development);
}

#[test]
fn env_prints_its_name() {
    assert_eq!(ENV::Development.label(), "Development");
    assert_eq!(ENV::Testing.label(), "Testing");
    assert_eq!(ENV::Production.label(), "Production");
}

use safe_vex::log::{ExecutionLog, Log, Logger};

#[test]
fn events_compare_by_kind_and_content() {
    assert_eq!(Log::MotorConnect(1), Log::MotorConnect(1));
    assert_ne!(Log::MotorConnect(1), Log::MotorConnect(2));
    assert_ne!(Log::MotorConnect(1), Log::MotorDisconnect(1));
    assert_eq!(Log::Nothing, Log::Nothing);
    assert_ne!(Log::Autonomous, Log::OpControl);
    assert_ne!(Log::Disabled, Log::Nothing);
    assert_eq!(Log::Other("a".to_string()), Log::Other("a".to_string()));
    assert_ne!(Log::Other("a".to_string()), Log::Other("b".to_string()));
    assert_ne!(Log::Other("a".to_string()), Log::ControllerConnect);
    assert_ne!(Log::ControllerConnect, Log::ControllerDisconnect);
}

#[test]
fn a_copy_of_an_event_is_equal() {
    let events = vec![
        Log::MotorConnect(3),
        Log::MotorDisconnect(4),
        Log::ControllerDisconnect,
        Log::ControllerConnect,
        Log::Autonomous,
        Log::OpControl,
        Log::Disabled,
        Log::Nothing,
        Log::Other("battery low".to_string()),
    ];
    for event in &events {
        assert_eq!(&event.clone(), event);
    }
}

#[test]
fn a_logger_is_a_pile_of_events() {
    let mut logger = Logger::new();
    logger.push(Log::Nothing);
    logger.push(Log::Nothing);
    logger.push(Log::Other("x".to_string()));
    let mut runs = Vec::new();
    logger.flush(|event, count| runs.push((event.clone(), count)));
    assert_eq!(runs, vec![(Log::Nothing, 2), (Log::Other("x".to_string()), 1)]);
}

#[test]
fn a_new_log_is_empty() {
    let mut log = ExecutionLog::new(20);
    assert_eq!(log.tick(), 0);
    assert_eq!(log.tick_ms(), 20);
    assert!(log.flush_and_report().is_empty());
}

#[test]
fn advance_counts_ticks() {
    let mut log = ExecutionLog::new(20);
    log.begin(Log::OpControl);
    for expected in 1..=5u16 {
        log.advance();
        assert_eq!(log.tick(), expected);
    }
}

#[test]
fn begin_counts_from_zero() {
    let mut log = ExecutionLog::new(20);
    log.begin(Log::Autonomous);
    log.advance();
    log.advance();
    assert_eq!(log.tick(), 2);
    log.begin(Log::OpControl);
    assert_eq!(log.tick(), 0);
}

#[test]
fn the_tick_counter_stays_at_its_limit() {
    let mut log = ExecutionLog::new(1);
    log.begin(Log::Disabled);
    for _ in 0..65535u32 {
        log.advance();
    }
    assert_eq!(log.tick(), 65535);
    log.advance();
    log.advance();
    assert_eq!(log.tick(), 65535);
}

#[test]
fn report_estimates_the_time_from_the_ticks() {
    let mut log = ExecutionLog::new(20);
    log.begin(Log::OpControl);
    log.advance();
    log.advance();
    log.advance();
    log.log(Log::MotorDisconnect(12));
    log.advance();
    log.log(Log::Other("arm stalled".to_string()));
    log.log(Log::Other("arm stalled".to_string()));
    assert_eq!(
        log.flush_and_report(),
        vec![
            "[0 ms] opcontrol x1".to_string(),
            "[0 ms] idle x3".to_string(),
            "[60 ms] motor 12 disconnected x1".to_string(),
            "[60 ms] idle x1".to_string(),
            "[80 ms] arm stalled x2".to_string(),
        ]
    );
}

#[test]
fn report_drains_the_log_but_keeps_the_counter() {
    let mut log = ExecutionLog::new(5);
    log.begin(Log::Autonomous);
    log.advance();
    assert_eq!(log.flush_and_report().len(), 2);
    assert!(log.flush_and_report().is_empty());
    assert_eq!(log.tick(), 1);
    log.log(Log::ControllerConnect);
    assert_eq!(log.flush_and_report(), vec!["[0 ms] controller connected x1".to_string()]);
}

#[test]
fn report_splits_long_idle_runs() {
    let mut log = ExecutionLog::new(2);
    for _ in 0..300 {
        log.advance();
    }
    log.log(Log::Disabled);
    assert_eq!(
        log.flush_and_report(),
        vec![
            "[0 ms] idle x255".to_string(),
            "[510 ms] idle x45".to_string(),
            "[600 ms] disabled x1".to_string(),
        ]
    );
}

#[test]
fn report_time_stops_at_the_largest_number() {
    let mut log = ExecutionLog::new(u64::MAX);
    log.advance();
    log.advance();
    log.log(Log::Autonomous);
    assert_eq!(
        log.flush_and_report(),
        vec![
            "[0 ms] idle x2".to_string(),
            "[18446744073709551615 ms] autonomous x1".to_string(),
        ]
    );
}

#[test]
fn controller_reads_through_the_log() {
    let mut log = ExecutionLog::new(10);
    let mut values = Vec::new();
    for reading in [Err(()), Err(()), Ok(55i8), Ok(-3), Err(())] {
        values.push(log.controller(reading, 0));
    }
    assert_eq!(values, vec![0, 0, 55, -3, 0]);
    assert_eq!(
        log.flush_and_report(),
        vec![
            "[0 ms] controller disconnected x1".to_string(),
            "[0 ms] controller connected x1".to_string(),
            "[0 ms] controller disconnected x1".to_string(),
        ]
    );
}

use safe_vex::guard::{ConnectivityGuard, Device};
use safe_vex::log::{ExecutionLog, Log};

#[test]
fn a_guard_starts_connected() {
    let guard = ConnectivityGuard::new(Device::Motor(3));
    assert!(!guard.is_disconnected());
    assert_eq!(guard.device(), Device::Motor(3));
}

#[test]
fn a_guard_can_resume() {
    let mut guard = ConnectivityGuard::resume(Device::Controller, true);
    assert!(guard.is_disconnected());
    assert_eq!(guard.observe(false), Some(Log::ControllerConnect));
}

#[test]
fn guard_reports_only_the_changes() {
    let mut guard = ConnectivityGuard::new(Device::Motor(5));
    let mut events = Vec::new();
    for failed in [true, true, false, false, true] {
        events.push(guard.observe(failed));
    }
    assert_eq!(
        events,
        vec![
            Some(Log::MotorDisconnect(5)),
            None,
            Some(Log::MotorConnect(5)),
            None,
            Some(Log::MotorDisconnect(5)),
        ]
    );
    assert!(guard.is_disconnected());
}

#[test]
fn a_steady_device_reports_nothing() {
    let mut guard = ConnectivityGuard::new(Device::Controller);
    for _ in 0..100 {
        assert_eq!(guard.observe(false), None);
    }
    assert_eq!(guard.observe(true), Some(Log::ControllerDisconnect));
    for _ in 0..100 {
        assert_eq!(guard.observe(true), None);
    }
}

#[test]
fn device_events() {
    assert_eq!(Device::Controller.connected(), Log::ControllerConnect);
    assert_eq!(Device::Controller.disconnected(), Log::ControllerDisconnect);
    assert_eq!(Device::Motor(9).connected(), Log::MotorConnect(9));
    assert_eq!(Device::Motor(9).disconnected(), Log::MotorDisconnect(9));
}

#[test]
fn guard_gives_a_value_either_way() {
    let mut log = ExecutionLog::new(10);
    let mut guard = ConnectivityGuard::new(Device::Motor(2));
    let read: Result<i32, ()> = Ok(1200);
    assert_eq!(guard.guard(read, 0, &mut log), 1200);
    let failed: Result<i32, ()> = Err(());
    assert_eq!(guard.guard(failed, 0, &mut log), 0);
    assert!(guard.is_disconnected());
}

#[test]
fn guard_logs_the_failure_sequence() {
    let mut log = ExecutionLog::new(10);
    let mut guard = ConnectivityGuard::new(Device::Motor(2));
    for failed in [true, true, false, false, true] {
        let reading: Result<(), u8> = if failed { Err(1) } else { Ok(()) };
        guard.guard(reading, (), &mut log);
    }
    assert_eq!(
        log.flush_and_report(),
        vec![
            "[0 ms] motor 2 disconnected x1".to_string(),
            "[0 ms] motor 2 connected x1".to_string(),
            "[0 ms] motor 2 disconnected x1".to_string(),
        ]
    );
}

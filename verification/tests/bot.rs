use safe_vex::bot::{Action, Bot, Phase, Robot, Signal, Stage, TickScheduler, Wake, LAST_TICK};
use safe_vex::context::Context;
use safe_vex::log::Log;
use safe_vex::port::{PortError, PortManager, SmartPort};

/// What the test robot is given in place of real peripherals.
struct Bench {
    label: &'static str,
}

/// A bot that writes down what it is asked to do.
struct Recorder {
    motor: SmartPort,
    ticks: Vec<(Phase, u16)>,
    stop_at: Option<u16>,
    seen_label: &'static str,
}

impl Bot<Bench> for Recorder {
    const TICK_SPEED: u64 = 10;

    fn new(peripherals: &Bench, port_manager: &mut PortManager) -> Self {
        Recorder {
            motor: port_manager.take(1).unwrap(),
            ticks: Vec::new(),
            stop_at: None,
            seen_label: peripherals.label,
        }
    }

    fn opcontrol(&mut self, context: Context<Bench>) -> bool {
        self.ticks.push((Phase::OpControl, context.tick));
        if context.tick == 2 {
            context.log.log(Log::Other("third tick".to_string()));
        }
        self.stop_at == Some(context.tick)
    }

    fn autonomous(&mut self, context: Context<Bench>) -> bool {
        self.ticks.push((Phase::Autonomous, context.tick));
        assert_eq!(context.port_manager.get(1).err(), Some(PortError::PortTaken));
        assert_eq!(context.peripherals.label, "bench");
        false
    }
}

/// A bot that leaves everything to the defaults.
struct Idler;

impl Bot<Bench> for Idler {
    const TICK_SPEED: u64 = 20;

    fn new(_peripherals: &Bench, _port_manager: &mut PortManager) -> Self {
        Idler
    }
}

fn bench() -> Bench {
    Bench { label: "bench" }
}

#[test]
fn phase_events() {
    assert_eq!(Phase::Disabled.event(), Log::Disabled);
    assert_eq!(Phase::Autonomous.event(), Log::Autonomous);
    assert_eq!(Phase::OpControl.event(), Log::OpControl);
}

#[test]
fn wake_signals() {
    assert_eq!(Wake::Elapsed.signal(), Signal::Elapsed);
    assert_eq!(Wake::Cancelled.signal(), Signal::Cancelled);
}

#[test]
fn scheduler_starts_with_tick_zero_due() {
    let scheduler = TickScheduler::enter(Phase::Autonomous);
    assert_eq!(scheduler.phase, Phase::Autonomous);
    assert_eq!(scheduler.tick, 0);
    assert_eq!(scheduler.stage, Stage::Due);
    assert!(!scheduler.cancelled);
    assert_eq!(scheduler.action(), Action::Run(0));
}

#[test]
fn scheduler_numbers_the_ticks_in_sequence() {
    let mut scheduler = TickScheduler::enter(Phase::OpControl);
    let mut action = scheduler.action();
    for expected in 0..50u16 {
        assert_eq!(action, Action::Run(expected));
        assert_eq!(scheduler.step(Signal::Returned(false)), Action::Wait);
        action = scheduler.step(Signal::Elapsed);
    }
    assert_eq!(action, Action::Run(50));
}

#[test]
fn scheduler_cancelled_during_the_first_wait_runs_one_tick() {
    let mut scheduler = TickScheduler::enter(Phase::OpControl);
    let mut runs = 0;
    let mut action = scheduler.action();
    let mut signals = vec![Signal::Cancelled, Signal::Returned(false)];
    loop {
        match action {
            Action::Run(tick) => {
                assert_eq!(tick, 0);
                runs += 1;
                action = scheduler.step(signals.pop().unwrap());
            }
            Action::Wait => action = scheduler.step(signals.pop().unwrap()),
            Action::Exit => break,
        }
    }
    assert_eq!(runs, 1);
    assert!(signals.is_empty());
    assert_eq!(scheduler.stage, Stage::Finished);
}

#[test]
fn scheduler_cancelled_while_a_tick_runs_lets_it_finish() {
    let mut scheduler = TickScheduler::enter(Phase::Disabled);
    assert_eq!(scheduler.step(Signal::Cancelled), Action::Run(0));
    assert_eq!(scheduler.stage, Stage::Due);
    assert!(scheduler.cancelled);
    assert_eq!(scheduler.step(Signal::Returned(false)), Action::Exit);
    assert_eq!(scheduler.stage, Stage::Finished);
}

#[test]
fn scheduler_exits_when_the_code_has_completed() {
    let mut scheduler = TickScheduler::enter(Phase::Autonomous);
    assert_eq!(scheduler.step(Signal::Returned(true)), Action::Exit);
}

#[test]
fn scheduler_finished_stays_finished() {
    let mut scheduler = TickScheduler::enter(Phase::Autonomous);
    scheduler.step(Signal::Returned(true));
    let finished = scheduler;
    for signal in [Signal::Elapsed, Signal::Returned(false), Signal::Cancelled, Signal::Elapsed] {
        assert_eq!(scheduler.step(signal), Action::Exit);
        assert_eq!(scheduler, finished);
    }
}

#[test]
fn scheduler_ignores_signals_out_of_turn() {
    let mut scheduler = TickScheduler::enter(Phase::OpControl);
    // The tick has not run: its time cannot be up.
    assert_eq!(scheduler.step(Signal::Elapsed), Action::Run(0));
    assert_eq!(scheduler.step(Signal::Returned(false)), Action::Wait);
    // The loop waits: nothing can have returned.
    assert_eq!(scheduler.step(Signal::Returned(true)), Action::Wait);
    assert_eq!(scheduler.step(Signal::Elapsed), Action::Run(1));
}

#[test]
fn scheduler_keeps_the_last_tick_number() {
    let mut scheduler = TickScheduler {
        phase: Phase::OpControl,
        tick: LAST_TICK - 1,
        stage: Stage::Waiting,
        cancelled: false,
    };
    assert_eq!(scheduler.step(Signal::Elapsed), Action::Run(65535));
    scheduler.step(Signal::Returned(false));
    assert_eq!(scheduler.step(Signal::Elapsed), Action::Run(65535));
}

#[test]
fn a_new_robot_has_nothing_to_run() {
    let mut robot: Robot<Bench, Recorder> = Robot::new(bench());
    assert_eq!(robot.scheduler().action(), Action::Exit);
    assert_eq!(robot.run_tick(), Action::Exit);
    assert_eq!(robot.wake(Wake::Elapsed), Action::Exit);
    assert_eq!(robot.log().tick_ms(), 10);
    assert_eq!(robot.log().tick(), 0);
    // The bot took port 1 when it was made.
    assert_eq!(robot.port_manager().get(1).err(), Some(PortError::PortTaken));
    assert!(robot.port_manager().get(2).is_ok());
    assert!(robot.log_mut().flush_and_report().is_empty());
}

#[test]
fn robot_runs_the_phase_until_cancelled() {
    let mut robot: Robot<Bench, Recorder> = Robot::new(bench());
    let mut action = robot.enter(Phase::OpControl);
    let mut wakes = vec![Wake::Cancelled, Wake::Elapsed, Wake::Elapsed, Wake::Elapsed];
    let mut runs = Vec::new();
    loop {
        match action {
            Action::Run(tick) => {
                runs.push(tick);
                action = robot.run_tick();
            }
            Action::Wait => action = robot.wake(wakes.pop().unwrap()),
            Action::Exit => break,
        }
    }
    assert_eq!(runs, vec![0, 1, 2, 3]);
    assert_eq!(robot.log().tick(), 3);
    assert_eq!(
        robot.log_mut().flush_and_report(),
        vec![
            "[0 ms] opcontrol x1".to_string(),
            "[0 ms] idle x2".to_string(),
            "[20 ms] third tick x1".to_string(),
            "[20 ms] idle x1".to_string(),
        ]
    );
}

#[test]
fn robot_cancelled_in_the_first_wait_runs_the_code_once() {
    let mut robot: Robot<Bench, Recorder> = Robot::new(bench());
    assert_eq!(robot.enter(Phase::Autonomous), Action::Run(0));
    assert_eq!(robot.run_tick(), Action::Wait);
    assert_eq!(robot.wake(Wake::Cancelled), Action::Exit);
    assert_eq!(robot.run_tick(), Action::Exit);
    assert_eq!(robot.log_mut().flush_and_report(), vec!["[0 ms] autonomous x1".to_string()]);
}

#[test]
fn robot_cancelled_before_the_first_tick_still_runs_it() {
    let mut robot: Robot<Bench, Recorder> = Robot::new(bench());
    assert_eq!(robot.enter(Phase::Autonomous), Action::Run(0));
    assert_eq!(robot.wake(Wake::Cancelled), Action::Run(0));
    assert_eq!(robot.run_tick(), Action::Exit);
}

#[test]
fn robot_with_default_code_completes_at_once() {
    let mut robot: Robot<Bench, Idler> = Robot::new(bench());
    for phase in [Phase::Disabled, Phase::Autonomous, Phase::OpControl] {
        assert_eq!(robot.enter(phase), Action::Run(0));
        assert_eq!(robot.run_tick(), Action::Exit);
    }
    assert_eq!(robot.log().tick_ms(), 20);
    assert_eq!(
        robot.log_mut().flush_and_report(),
        vec![
            "[0 ms] disabled x1".to_string(),
            "[0 ms] autonomous x1".to_string(),
            "[0 ms] opcontrol x1".to_string(),
        ]
    );
}

#[test]
fn robot_counts_ticks_anew_in_each_phase() {
    let mut robot: Robot<Bench, Recorder> = Robot::new(bench());
    robot.enter(Phase::Autonomous);
    robot.run_tick();
    robot.wake(Wake::Elapsed);
    robot.run_tick();
    assert_eq!(robot.wake(Wake::Elapsed), Action::Run(2));
    assert_eq!(robot.enter(Phase::OpControl), Action::Run(0));
    assert_eq!(robot.log().tick(), 0);
    assert_eq!(robot.scheduler().phase, Phase::OpControl);
}

#[test]
fn context_holds_what_it_is_given() {
    let bench = bench();
    let mut ports = PortManager::new();
    let mut log = safe_vex::log::ExecutionLog::new(5);
    let context = Context::new(9, &bench, &mut ports, &mut log);
    assert_eq!(context.tick, 9);
    assert_eq!(context.peripherals.label, "bench");
    assert!(context.port_manager.take(0).is_ok());
    context.log.log(Log::Nothing);
    assert_eq!(ports.get(0).err(), Some(PortError::PortTaken));
    assert_eq!(log.flush_and_report(), vec!["[0 ms] idle x1".to_string()]);
}

#[test]
fn an_assembled_robot_keeps_what_it_is_given() {
    let bench = Bench { label: "workshop" };
    let mut ports = PortManager::new();
    let custom = Recorder::new(&bench, &mut ports);
    assert!(ports.take(5).is_ok());
    let mut robot: Robot<Bench, Recorder> = Robot::assemble(custom, ports, bench);
    // The ports that were taken before stay taken in the robot.
    assert_eq!(robot.port_manager().get(1).err(), Some(PortError::PortTaken));
    assert_eq!(robot.port_manager().get(5).err(), Some(PortError::PortTaken));
    assert!(robot.port_manager().get(2).is_ok());
    assert_eq!(robot.bot().seen_label, "workshop");
    assert_eq!(robot.bot().motor.index(), 1);
    assert_eq!(robot.peripherals().label, "workshop");
    assert_eq!(robot.scheduler().stage, Stage::Finished);
    assert_eq!(robot.log().tick_ms(), 10);
    assert!(robot.log_mut().flush_and_report().is_empty());
}

#[test]
fn the_robot_keeps_the_port_manager_of_its_bot() {
    let mut robot: Robot<Bench, Recorder> = Robot::new(bench());
    assert_eq!(robot.bot().motor.index(), 1);
    assert_eq!(robot.bot().seen_label, "bench");
    assert_eq!(robot.peripherals().label, "bench");
    robot.enter(Phase::Autonomous);
    // The bot's code sees port 1 as taken in every tick: it asserts so.
    robot.run_tick();
    robot.wake(Wake::Elapsed);
    robot.run_tick();
    assert_eq!(robot.bot().ticks, vec![(Phase::Autonomous, 0), (Phase::Autonomous, 1)]);
    assert_eq!(robot.port_manager().get(1).err(), Some(PortError::PortTaken));
}

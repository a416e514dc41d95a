//! The life cycle of a robot: phases, ticks, and the user's code in them.

use crate::context::Context;
use crate::log::{ExecutionLog, ExecutionLogView, Log};
use crate::pile::PileView;
use crate::port::{PortManager, SmartPort, PORT_COUNT};
use vstd::prelude::*;

verus! {

/// The phases of a competition. Exactly one is active at a time.
#[derive(Debug, Clone, Copy, PartialEq, Eq, Structural)]
pub enum Phase {
    /// The robot is disabled.
    Disabled,
    /// The robot drives on its own.
    Autonomous,
    /// The robot is driven by its operator.
    OpControl,
}

impl Phase {
    /// The event that tells that the phase began.
    pub open spec fn spec_event(self) -> Log {
        match self {
            Phase::Disabled => Log::Disabled,
            Phase::Autonomous => Log::Autonomous,
            Phase::OpControl => Log::OpControl,
        }
    }

    /// The event that tells that the phase began.
    #[verifier::when_used_as_spec(spec_event)]
    pub fn event(self) -> (event: Log)
        ensures
            event == self.spec_event(),
    {
        match self {
            Phase::Disabled => Log::Disabled,
            Phase::Autonomous => Log::Autonomous,
            Phase::OpControl => Log::OpControl,
        }
    }
}

/// What the loop of a phase tells the scheduler.
#[derive(Debug, Clone, Copy, PartialEq, Eq, Structural)]
pub enum Signal {
    /// The user's code ran for the tick that was due and returned whether
    /// it has completed.
    Returned(bool),
    /// The wait ended because the tick's time was up.
    Elapsed,
    /// The phase is over: the field control cancelled it.
    Cancelled,
}

/// What the scheduler tells the loop of a phase to do next.
#[derive(Debug, Clone, Copy, PartialEq, Eq, Structural)]
pub enum Action {
    /// Run the user's code for the tick with the given number.
    Run(u16),
    /// Wait for the tick's time to be up or for the phase to be cancelled,
    /// whichever comes first.
    Wait,
    /// Leave the loop.
    Exit,
}

/// Where a phase stands between two ticks.
#[derive(Debug, Clone, Copy, PartialEq, Eq, Structural)]
pub enum Stage {
    /// The user's code is due: it runs next, or runs now.
    Due,
    /// The user's code has run for this tick; the loop waits.
    Waiting,
    /// The phase is over.
    Finished,
}

/// The largest number that a tick gets. Later ticks keep it.
pub const LAST_TICK: u16 = 65535;

/// The scheduler of one phase: it decides, from what the loop of the phase
/// reports, what the loop does next. Ticks are numbered from zero with each
/// phase. A cancellation is looked at between ticks only: a tick that is due
/// always runs to its end.
#[derive(Debug, Clone, Copy, PartialEq, Eq, Structural)]
pub struct TickScheduler {
    /// The phase that is scheduled.
    pub phase: Phase,
    /// The number of the tick that is due or was run last.
    pub tick: u16,
    /// Where the phase stands.
    pub stage: Stage,
    /// Whether the phase was cancelled while a tick was due.
    pub cancelled: bool,
}

impl TickScheduler {
    /// The scheduler at the entry of `phase`: the first tick is due.
    pub open spec fn entered(phase: Phase) -> Self {
        TickScheduler { phase, tick: 0, stage: Stage::Due, cancelled: false }
    }

    /// What the loop does next.
    pub open spec fn spec_action(self) -> Action {
        match self.stage {
            Stage::Due => Action::Run(self.tick),
            Stage::Waiting => Action::Wait,
            Stage::Finished => Action::Exit,
        }
    }

    /// The number of the tick after `tick`.
    pub open spec fn tick_after(tick: u16) -> u16 {
        if tick < LAST_TICK {
            (tick + 1) as u16
        } else {
            LAST_TICK
        }
    }

    /// The scheduler after `signal`.
    ///
    /// While a tick is due, only the return of the user's code moves the
    /// phase on: to the wait, or to its end if the code has completed or the
    /// phase was cancelled meanwhile. While the loop waits, the end of the
    /// tick's time makes the next tick due, and a cancellation ends the
    /// phase. Once the phase is over, nothing changes.
    pub open spec fn next(self, signal: Signal) -> Self {
        match (self.stage, signal) {
            (Stage::Due, Signal::Returned(done)) => TickScheduler {
                stage: if done || self.cancelled {
                    Stage::Finished
                } else {
                    Stage::Waiting
                },
                ..self
            },
            (Stage::Due, Signal::Cancelled) => TickScheduler { cancelled: true, ..self },
            (Stage::Waiting, Signal::Elapsed) => TickScheduler {
                tick: Self::tick_after(self.tick),
                stage: Stage::Due,
                ..self
            },
            (Stage::Waiting, Signal::Cancelled) => TickScheduler {
                stage: Stage::Finished,
                cancelled: true,
                ..self
            },
            _ => self,
        }
    }

    /// The scheduler after all of `signals`, first to last.
    pub open spec fn run(self, signals: Seq<Signal>) -> Self
        decreases signals.len(),
    {
        if signals.len() == 0 {
            self
        } else {
            self.next(signals.first()).run(signals.drop_first())
        }
    }

    /// The numbers of the ticks for which the user's code ran while the loop
    /// reported `signals`, in order: one for each return that was reported
    /// while a tick was due.
    pub open spec fn ticks_run(self, signals: Seq<Signal>) -> Seq<u16>
        decreases signals.len(),
    {
        if signals.len() == 0 {
            Seq::empty()
        } else {
            let rest = self.next(signals.first()).ticks_run(signals.drop_first());
            if self.stage == Stage::Due && signals.first() is Returned {
                seq![self.tick] + rest
            } else {
                rest
            }
        }
    }

    /// What the loop reports over `n` ticks in which the user's code does
    /// not complete and nothing cancels the phase: the return of the code,
    /// then the end of the tick's time, `n` times over.
    pub open spec fn steady(n: nat) -> Seq<Signal>
        decreases n,
    {
        if n == 0 {
            Seq::empty()
        } else {
            seq![Signal::Returned(false), Signal::Elapsed] + Self::steady((n - 1) as nat)
        }
    }

    /// The number of the tick that comes `n` ticks after the tick `tick`.
    pub open spec fn tick_number(tick: u16, n: nat) -> u16 {
        if tick + n < LAST_TICK {
            (tick + n) as u16
        } else {
            LAST_TICK
        }
    }

    /// A phase that is over stays over: whatever the loop reports, the
    /// scheduler does not change and the user's code does not run.
    pub proof fn lemma_finished_is_final(self, signals: Seq<Signal>)
        requires
            self.stage == Stage::Finished,
        ensures
            self.run(signals) == self,
            self.ticks_run(signals) == Seq::<u16>::empty(),
            self.run(signals).spec_action() == Action::Exit,
        decreases signals.len(),
    {
        if signals.len() > 0 {
            self.lemma_finished_is_final(signals.drop_first());
        }
    }

    /// A tick that is due always runs to its end, and a cancellation takes
    /// effect at the next boundary. From the entry of a phase, a
    /// cancellation that comes before the first wait is over, whether
    /// `early`, while the user's code still runs, or during the wait, lets
    /// the user's code run exactly once, for tick zero; the phase is over
    /// then, whatever the loop reports later.
    pub proof fn lemma_cancelled_first_tick(phase: Phase, early: bool, done: bool, later: Seq<Signal>)
        ensures
            ({
                let signals = if early {
                    seq![Signal::Cancelled, Signal::Returned(done)]
                } else {
                    seq![Signal::Returned(done), Signal::Cancelled]
                };
                &&& Self::entered(phase).spec_action() == Action::Run(0)
                &&& Self::entered(phase).ticks_run(signals + later) == seq![0u16]
                &&& Self::entered(phase).run(signals + later).stage == Stage::Finished
                &&& Self::entered(phase).run(signals + later).spec_action() == Action::Exit
            }),
    {
        let start = Self::entered(phase);
        let signals = if early {
            seq![Signal::Cancelled, Signal::Returned(done)]
        } else {
            seq![Signal::Returned(done), Signal::Cancelled]
        };
        let all = signals + later;
        let first = start.next(all[0]);
        let second = first.next(all[1]);
        assert(all.drop_first().drop_first() == later);
        assert(all.drop_first()[0] == all[1]);
        second.lemma_finished_is_final(later);
        reveal_with_fuel(TickScheduler::run, 3);
        reveal_with_fuel(TickScheduler::ticks_run, 3);
        assert(start.run(all) == second.run(later));
        assert(first.ticks_run(all.drop_first()) == if first.stage == Stage::Due {
            seq![0u16] + second.ticks_run(later)
        } else {
            second.ticks_run(later)
        });
        assert(start.ticks_run(all) == seq![0u16]);
    }

    /// Ticks are run one after the other and numbered in sequence. Over `n`
    /// ticks in which the user's code does not complete and nothing cancels
    /// the phase, the code runs once per tick, for the numbers that follow
    /// the tick that was due at the start, and the tick after them is due
    /// at the end. From the entry of a phase the numbers are 0, 1, 2 and so
    /// on, up to the last tick number.
    pub proof fn lemma_ticks_are_numbered(self, n: nat)
        requires
            self.stage == Stage::Due,
            !self.cancelled,
        ensures
            self.ticks_run(Self::steady(n)) == Seq::new(
                n,
                |k: int| Self::tick_number(self.tick, k as nat),
            ),
            self.run(Self::steady(n)) == (TickScheduler {
                tick: Self::tick_number(self.tick, n),
                ..self
            }),
            self.run(Self::steady(n)).spec_action() == Action::Run(
                Self::tick_number(self.tick, n),
            ),
        decreases n,
    {
        let numbers = Seq::new(n, |k: int| Self::tick_number(self.tick, k as nat));
        if n == 0 {
            assert(self.ticks_run(Self::steady(n)) == numbers);
        } else {
            let signals = Self::steady(n);
            let rest = Self::steady((n - 1) as nat);
            let waiting = self.next(Signal::Returned(false));
            let due = waiting.next(Signal::Elapsed);
            assert(signals.drop_first().drop_first() == rest);
            assert(signals.drop_first()[0] == Signal::Elapsed);
            reveal_with_fuel(TickScheduler::run, 3);
            reveal_with_fuel(TickScheduler::ticks_run, 3);
            due.lemma_ticks_are_numbered((n - 1) as nat);
            assert(self.run(signals) == due.run(rest));
            assert(self.ticks_run(signals) == seq![self.tick] + due.ticks_run(rest));
            assert forall|k: int| 0 <= k < n implies (seq![self.tick] + due.ticks_run(rest))[k]
                == numbers[k] by {
                if k > 0 {
                    assert(Self::tick_number(due.tick, (k - 1) as nat) == Self::tick_number(
                        self.tick,
                        k as nat,
                    ));
                }
            }
            assert(self.ticks_run(signals) == numbers);
        }
    }

    /// Enters `phase`: the first tick, with number zero, is due.
    pub fn enter(phase: Phase) -> (scheduler: Self)
        ensures
            scheduler == Self::entered(phase),
    {
        TickScheduler { phase, tick: 0, stage: Stage::Due, cancelled: false }
    }

    /// What the loop does next.
    #[verifier::when_used_as_spec(spec_action)]
    pub fn action(self) -> (action: Action)
        ensures
            action == self.spec_action(),
    {
        match self.stage {
            Stage::Due => Action::Run(self.tick),
            Stage::Waiting => Action::Wait,
            Stage::Finished => Action::Exit,
        }
    }

    /// Takes `signal` from the loop and returns what the loop does next.
    pub fn step(&mut self, signal: Signal) -> (action: Action)
        ensures
            *final(self) == old(self).next(signal),
            action == final(self).spec_action(),
    {
        match self.stage {
            Stage::Due => match signal {
                Signal::Returned(done) => {
                    if done || self.cancelled {
                        self.stage = Stage::Finished;
                    } else {
                        self.stage = Stage::Waiting;
                    }
                },
                Signal::Cancelled => {
                    self.cancelled = true;
                },
                Signal::Elapsed => {},
            },
            Stage::Waiting => match signal {
                Signal::Elapsed => {
                    if self.tick < LAST_TICK {
                        self.tick = self.tick + 1;
                    }
                    self.stage = Stage::Due;
                },
                Signal::Cancelled => {
                    self.stage = Stage::Finished;
                    self.cancelled = true;
                },
                Signal::Returned(_) => {},
            },
            Stage::Finished => {},
        }
        self.action()
    }
}

/// Represents a user-implemented robot.
///
/// *Your robot should implement this.*
pub trait Bot<P>: Sized + Sync + Send + 'static {
    /// The tick speed of the robot in milliseconds: how long each cycle
    /// lasts.
    const TICK_SPEED: u64;

    /// Creates a new instance of your bot.
    fn new(peripherals: &P, port_manager: &mut PortManager) -> Self;

    /// Runs each tick of `opcontrol` and returns whether it has completed.
    ///
    /// A bot that does not write this method has nothing to do in the
    /// phase: it has completed at the first tick, and the bot, the ports
    /// and the log are as they were.
    fn opcontrol(&mut self, context: Context<P>) -> (done: bool)
        default_ensures
            done,
            *final(self) == *old(self),
            *final(context.port_manager) == *old(context.port_manager),
            *final(context.log) == *old(context.log),
    {
        true
    }

    /// Runs each tick of `autonomous` and returns whether it has completed.
    ///
    /// A bot that does not write this method has nothing to do in the
    /// phase: it has completed at the first tick, and the bot, the ports
    /// and the log are as they were.
    fn autonomous(&mut self, context: Context<P>) -> (done: bool)
        default_ensures
            done,
            *final(self) == *old(self),
            *final(context.port_manager) == *old(context.port_manager),
            *final(context.log) == *old(context.log),
    {
        true
    }

    /// Runs each tick of `disabled` and returns whether it has completed.
    ///
    /// A bot that does not write this method has nothing to do in the
    /// phase: it has completed at the first tick, and the bot, the ports
    /// and the log are as they were.
    fn disabled(&mut self, context: Context<P>) -> (done: bool)
        default_ensures
            done,
            *final(self) == *old(self),
            *final(context.port_manager) == *old(context.port_manager),
            *final(context.log) == *old(context.log),
    {
        true
    }
}

/// How the wait at the end of a tick came to its end.
#[derive(Debug, Clone, Copy, PartialEq, Eq, Structural)]
pub enum Wake {
    /// The tick's time was up.
    Elapsed,
    /// The field control cancelled the phase.
    Cancelled,
}

impl Wake {
    /// The signal that the scheduler gets for this end of the wait.
    pub open spec fn spec_signal(self) -> Signal {
        match self {
            Wake::Elapsed => Signal::Elapsed,
            Wake::Cancelled => Signal::Cancelled,
        }
    }

    /// The signal that the scheduler gets for this end of the wait.
    #[verifier::when_used_as_spec(spec_signal)]
    pub fn signal(self) -> (signal: Signal)
        ensures
            signal == self.spec_signal(),
    {
        match self {
            Wake::Elapsed => Signal::Elapsed,
            Wake::Cancelled => Signal::Cancelled,
        }
    }
}

/// Drives a user-defined bot through the phases of a competition.
///
/// The robot decides; the loop around it acts. On the entry of a phase the
/// loop calls `enter`, and then does what the returned action says until
/// that is to leave: it calls `run_tick` where the user's code is to run, and
/// waits and calls `wake` where it is to wait.
pub struct Robot<P, UserBot: Bot<P>> {
    /// The user-defined robot code.
    custom: UserBot,
    /// Manages the ports of the robot.
    port_manager: PortManager,
    /// The peripherals of the robot.
    peripherals: P,
    /// The log of the robot.
    log: ExecutionLog,
    /// The scheduler of the phase that was entered last.
    scheduler: TickScheduler,
}

impl<P, UserBot: Bot<P>> Robot<P, UserBot> {
    /// The scheduler of the phase that was entered last.
    pub closed spec fn spec_scheduler(&self) -> TickScheduler {
        self.scheduler
    }

    /// The content of the robot's log.
    pub closed spec fn spec_log(&self) -> ExecutionLogView {
        self.log@
    }

    /// The slots of the robot's port manager.
    pub closed spec fn spec_ports(&self) -> Seq<Option<SmartPort>> {
        self.port_manager@
    }

    /// The user's bot.
    pub closed spec fn spec_bot(&self) -> UserBot {
        self.custom
    }

    /// The peripherals of the robot.
    pub closed spec fn spec_peripherals(&self) -> P {
        self.peripherals
    }

    /// Creates the robot around the user's bot, which gets first pick of the
    /// ports: the bot is made with a port manager that holds every port, and
    /// the robot keeps that port manager as the bot left it. No phase is
    /// entered yet: there is nothing to run.
    pub fn new(peripherals: P) -> (robot: Self)
        ensures
            robot.spec_peripherals() == peripherals,
            robot.spec_scheduler().stage == Stage::Finished,
            robot.spec_log() == (ExecutionLogView {
                pile: PileView::empty(),
                tick: 0,
                tick_ms: UserBot::TICK_SPEED,
                controller_disconnected: false,
            }),
            robot.spec_ports().len() == PORT_COUNT,
    {
        let mut port_manager = PortManager::new();
        let custom = UserBot::new(&peripherals, &mut port_manager);
        proof {
            port_manager.lemma_port_count();
        }
        Self::assemble(custom, port_manager, peripherals)
    }

    /// Puts the robot together from a bot that was made already, the port
    /// manager that the bot picked its ports from, and the peripherals. The
    /// robot keeps all three as they are: a port that the bot took is taken
    /// in every tick to come. The log is empty and counts ticks of the bot's
    /// tick speed. No phase is entered yet: there is nothing to run.
    pub fn assemble(custom: UserBot, port_manager: PortManager, peripherals: P) -> (robot: Self)
        ensures
            robot.spec_bot() == custom,
            robot.spec_ports() == port_manager@,
            robot.spec_peripherals() == peripherals,
            robot.spec_scheduler() == (TickScheduler {
                phase: Phase::Disabled,
                tick: 0,
                stage: Stage::Finished,
                cancelled: false,
            }),
            robot.spec_log() == (ExecutionLogView {
                pile: PileView::empty(),
                tick: 0,
                tick_ms: UserBot::TICK_SPEED,
                controller_disconnected: false,
            }),
    {
        Self {
            custom,
            port_manager,
            peripherals,
            log: ExecutionLog::new(UserBot::TICK_SPEED),
            scheduler: TickScheduler {
                phase: Phase::Disabled,
                tick: 0,
                stage: Stage::Finished,
                cancelled: false,
            },
        }
    }

    /// The scheduler of the phase that was entered last.
    #[verifier::when_used_as_spec(spec_scheduler)]
    pub fn scheduler(&self) -> (scheduler: TickScheduler)
        ensures
            scheduler == self.spec_scheduler(),
    {
        self.scheduler
    }

    /// The robot's log.
    pub fn log(&self) -> (log: &ExecutionLog)
        ensures
            log@ == self.spec_log(),
    {
        &self.log
    }

    /// The robot's log, to write to it or to flush it.
    pub fn log_mut(&mut self) -> (log: &mut ExecutionLog)
        ensures
            log@ == old(self).spec_log(),
            final(self).spec_log() == final(log)@,
            final(self).spec_scheduler() == old(self).spec_scheduler(),
            final(self).spec_ports() == old(self).spec_ports(),
            final(self).spec_bot() == old(self).spec_bot(),
            final(self).spec_peripherals() == old(self).spec_peripherals(),
    {
        &mut self.log
    }

    /// The user's bot.
    pub fn bot(&self) -> (bot: &UserBot)
        ensures
            *bot == self.spec_bot(),
    {
        &self.custom
    }

    /// The peripherals of the robot.
    pub fn peripherals(&self) -> (peripherals: &P)
        ensures
            *peripherals == self.spec_peripherals(),
    {
        &self.peripherals
    }

    /// The robot's port manager.
    pub fn port_manager(&self) -> (port_manager: &PortManager)
        ensures
            port_manager@ == self.spec_ports(),
    {
        &self.port_manager
    }

    /// Enters `phase`: the phase is logged, its ticks count from zero, and
    /// the first of them is due.
    pub fn enter(&mut self, phase: Phase) -> (action: Action)
        ensures
            final(self).spec_scheduler() == TickScheduler::entered(phase),
            final(self).spec_log() == old(self).spec_log().begun(phase.spec_event()),
            final(self).spec_ports() == old(self).spec_ports(),
            final(self).spec_bot() == old(self).spec_bot(),
            final(self).spec_peripherals() == old(self).spec_peripherals(),
            action == Action::Run(0),
    {
        self.log.begin(phase.event());
        self.scheduler = TickScheduler::enter(phase);
        self.scheduler.action()
    }

    /// Runs the user's code for the tick that is due, if one is, and returns
    /// what the loop does next. The code gets the number of the tick and the
    /// robot's peripherals, port manager and log. What it returns goes to
    /// the scheduler: a phase whose code has completed is over.
    pub fn run_tick(&mut self) -> (action: Action)
        ensures
            old(self).spec_scheduler().stage == Stage::Due ==> {
                ||| final(self).spec_scheduler() == old(self).spec_scheduler().next(
                    Signal::Returned(true),
                )
                ||| final(self).spec_scheduler() == old(self).spec_scheduler().next(
                    Signal::Returned(false),
                )
            },
            old(self).spec_scheduler().stage != Stage::Due ==> {
                &&& final(self).spec_scheduler() == old(self).spec_scheduler()
                &&& final(self).spec_log() == old(self).spec_log()
                &&& final(self).spec_ports() == old(self).spec_ports()
                &&& final(self).spec_bot() == old(self).spec_bot()
            },
            final(self).spec_peripherals() == old(self).spec_peripherals(),
            final(self).spec_ports().len() == PORT_COUNT,
            action == final(self).spec_scheduler().spec_action(),
    {
        match self.scheduler.stage {
            Stage::Due => {
                let context = Context::new(
                    self.scheduler.tick,
                    &self.peripherals,
                    &mut self.port_manager,
                    &mut self.log,
                );
                let done = match self.scheduler.phase {
                    Phase::Disabled => self.custom.disabled(context),
                    Phase::Autonomous => self.custom.autonomous(context),
                    Phase::OpControl => self.custom.opcontrol(context),
                };
                proof {
                    self.port_manager.lemma_port_count();
                }
                self.scheduler.step(Signal::Returned(done))
            },
            _ => {
                proof {
                    self.port_manager.lemma_port_count();
                }
                self.scheduler.action()
            },
        }
    }

    /// Takes note of how the wait at the end of a tick came to its end and
    /// returns what the loop does next. A tick that went by is counted in
    /// the log.
    pub fn wake(&mut self, wake: Wake) -> (action: Action)
        ensures
            final(self).spec_scheduler() == old(self).spec_scheduler().next(wake.spec_signal()),
            final(self).spec_log() == if old(self).spec_scheduler().stage == Stage::Waiting && wake
                == Wake::Elapsed {
                old(self).spec_log().advanced()
            } else {
                old(self).spec_log()
            },
            final(self).spec_ports() == old(self).spec_ports(),
            final(self).spec_bot() == old(self).spec_bot(),
            final(self).spec_peripherals() == old(self).spec_peripherals(),
            action == final(self).spec_scheduler().spec_action(),
    {
        match (self.scheduler.stage, wake) {
            (Stage::Waiting, Wake::Elapsed) => {
                self.log.advance();
            },
            _ => {},
        }
        self.scheduler.step(wake.signal())
    }
}

} // verus!

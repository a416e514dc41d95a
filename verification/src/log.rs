//! The events that the robot reports, and the log that keeps them.

use crate::guard::{ConnectivityGuard, Device};
use crate::pile::{AddrCounter, Pile, PileView};
use crate::report::{elapsed, idle_ticks, render_line, report};
use vstd::prelude::*;
use vstd::std_specs::cmp::PartialEqSpecImpl;

verus! {

/// The different events that the robot may report.
#[derive(Debug, Eq)]
pub enum Log {
    /// The motor on the given port answered again.
    MotorConnect(u8),
    /// The motor on the given port stopped answering.
    MotorDisconnect(u8),
    /// The controller stopped answering.
    ControllerDisconnect,
    /// The controller answered again.
    ControllerConnect,
    /// The autonomous phase began.
    Autonomous,
    /// The driver-control phase began.
    OpControl,
    /// The disabled phase began.
    Disabled,
    /// A tick went by without an event of its own.
    Nothing,
    /// Anything else, as text.
    Other(String),
}

/// An event as a mathematical value: the text of `Other` is a sequence of
/// characters.
pub enum LogView {
    MotorConnect(u8),
    MotorDisconnect(u8),
    ControllerDisconnect,
    ControllerConnect,
    Autonomous,
    OpControl,
    Disabled,
    Nothing,
    Other(Seq<char>),
}

impl View for Log {
    type V = LogView;

    open spec fn view(&self) -> LogView {
        match self {
            Log::MotorConnect(port) => LogView::MotorConnect(*port),
            Log::MotorDisconnect(port) => LogView::MotorDisconnect(*port),
            Log::ControllerDisconnect => LogView::ControllerDisconnect,
            Log::ControllerConnect => LogView::ControllerConnect,
            Log::Autonomous => LogView::Autonomous,
            Log::OpControl => LogView::OpControl,
            Log::Disabled => LogView::Disabled,
            Log::Nothing => LogView::Nothing,
            Log::Other(text) => LogView::Other(text@),
        }
    }
}

impl Clone for Log {
    /// The copy of an event is the same event.
    fn clone(&self) -> (copy: Self)
        ensures
            copy@ == self@,
    {
        match self {
            Log::MotorConnect(port) => Log::MotorConnect(*port),
            Log::MotorDisconnect(port) => Log::MotorDisconnect(*port),
            Log::ControllerDisconnect => Log::ControllerDisconnect,
            Log::ControllerConnect => Log::ControllerConnect,
            Log::Autonomous => Log::Autonomous,
            Log::OpControl => Log::OpControl,
            Log::Disabled => Log::Disabled,
            Log::Nothing => Log::Nothing,
            Log::Other(text) => Log::Other(text.clone()),
        }
    }
}

impl PartialEqSpecImpl for Log {
    open spec fn obeys_eq_spec() -> bool {
        true
    }

    open spec fn eq_spec(&self, other: &Self) -> bool {
        self@ == other@
    }
}

impl PartialEq for Log {
    /// Two events are equal if they are the same kind of event about the
    /// same port or with the same text.
    fn eq(&self, other: &Self) -> (equal: bool) {
        match self {
            Log::MotorConnect(a) => match other {
                Log::MotorConnect(b) => *a == *b,
                _ => false,
            },
            Log::MotorDisconnect(a) => match other {
                Log::MotorDisconnect(b) => *a == *b,
                _ => false,
            },
            Log::ControllerDisconnect => match other {
                Log::ControllerDisconnect => true,
                _ => false,
            },
            Log::ControllerConnect => match other {
                Log::ControllerConnect => true,
                _ => false,
            },
            Log::Autonomous => match other {
                Log::Autonomous => true,
                _ => false,
            },
            Log::OpControl => match other {
                Log::OpControl => true,
                _ => false,
            },
            Log::Disabled => match other {
                Log::Disabled => true,
                _ => false,
            },
            Log::Nothing => match other {
                Log::Nothing => true,
                _ => false,
            },
            Log::Other(a) => match other {
                Log::Other(b) => *a == *b,
                _ => false,
            },
        }
    }
}

/// A pile of events.
pub type Logger = Pile<Log>;

/// The largest number that the tick counter reaches. It stays there.
pub const TICK_LIMIT: u16 = 65535;

/// The mathematical content of an execution log.
pub struct ExecutionLogView {
    /// The events.
    pub pile: PileView<Log>,
    /// The number of ticks that went by in the current phase.
    pub tick: u16,
    /// The length of one tick in milliseconds.
    pub tick_ms: u64,
    /// Whether the last access to the controller failed.
    pub controller_disconnected: bool,
}

impl ExecutionLogView {
    /// The log after `event` was logged.
    pub open spec fn logged(self, event: Log) -> Self {
        ExecutionLogView { pile: self.pile.push(event), ..self }
    }

    /// The log after `event` was logged, if there is one.
    pub open spec fn noted(self, event: Option<Log>) -> Self {
        match event {
            Some(event) => self.logged(event),
            None => self,
        }
    }

    /// The log after one more tick went by: the counter is one up, unless it
    /// stands at its limit, and the pile holds one more tick marker.
    pub open spec fn advanced(self) -> Self {
        ExecutionLogView {
            tick: if self.tick < TICK_LIMIT {
                (self.tick + 1) as u16
            } else {
                TICK_LIMIT
            },
            ..self.logged(Log::Nothing)
        }
    }

    /// The log after `n` more ticks went by.
    pub open spec fn advanced_by(self, n: nat) -> Self
        decreases n,
    {
        if n == 0 {
            self
        } else {
            self.advanced_by((n - 1) as nat).advanced()
        }
    }

    /// The log after a phase began with the event `entry`: the event is
    /// logged and the ticks count from zero.
    pub open spec fn begun(self, entry: Log) -> Self {
        ExecutionLogView { tick: 0, ..self.logged(entry) }
    }

    /// Ticks are numbered in sequence from the start of a phase: `n` ticks
    /// after a phase began the counter stands at `n`, or at its limit once
    /// `n` is beyond it, and it never goes down on the way.
    pub proof fn lemma_ticks_count_up(self, entry: Log, n: nat)
        ensures
            self.begun(entry).advanced_by(n).tick == if n < TICK_LIMIT {
                n
            } else {
                TICK_LIMIT as nat
            },
            self.begun(entry).advanced_by(n).tick <= self.begun(entry).advanced_by(n + 1).tick,
            self.begun(entry).advanced_by(n).tick_ms == self.tick_ms,
            self.begun(entry).advanced_by(n).controller_disconnected
                == self.controller_disconnected,
        decreases n,
    {
        reveal_with_fuel(ExecutionLogView::advanced_by, 2);
        if n > 0 {
            self.lemma_ticks_count_up(entry, (n - 1) as nat);
        }
    }
}

/// A time that is computed from a number of ticks cut off at the largest
/// machine number is the time of all the ticks, cut off likewise.
proof fn lemma_elapsed_saturates(ticks: nat, tick_ms: u64)
    ensures
        ({
            let cut: nat = if ticks <= u64::MAX {
                ticks
            } else {
                u64::MAX as nat
            };
            elapsed(ticks, tick_ms) == if cut * tick_ms <= u64::MAX {
                (cut * tick_ms) as u64
            } else {
                u64::MAX
            }
        }),
{
    if ticks > u64::MAX {
        if tick_ms > 0 {
            assert(ticks * tick_ms >= ticks) by (nonlinear_arith)
                requires
                    tick_ms >= 1,
            ;
            assert(u64::MAX * tick_ms >= u64::MAX) by (nonlinear_arith)
                requires
                    tick_ms >= 1,
            ;
        } else {
            assert(ticks * tick_ms == 0) by (nonlinear_arith)
                requires
                    tick_ms == 0,
            ;
            assert(u64::MAX * tick_ms == 0) by (nonlinear_arith)
                requires
                    tick_ms == 0,
            ;
        }
    }
}

/// The log of a robot: the events in a pile, the tick counter of the current
/// phase, and what is known of the controller.
pub struct ExecutionLog {
    pile: Pile<Log>,
    tick: u16,
    tick_ms: u64,
    controller_disconnected: bool,
}

impl View for ExecutionLog {
    type V = ExecutionLogView;

    closed spec fn view(&self) -> ExecutionLogView {
        ExecutionLogView {
            pile: self.pile@,
            tick: self.tick,
            tick_ms: self.tick_ms,
            controller_disconnected: self.controller_disconnected,
        }
    }
}

impl ExecutionLog {
    /// Creates an empty log for ticks of `tick_ms` milliseconds. The
    /// controller counts as connected.
    pub fn new(tick_ms: u64) -> (log: Self)
        ensures
            log@ == (ExecutionLogView {
                pile: PileView::empty(),
                tick: 0,
                tick_ms,
                controller_disconnected: false,
            }),
    {
        Self {
            pile: Pile::new(),
            tick: 0,
            tick_ms,
            controller_disconnected: false,
        }
    }

    /// The number of ticks that went by in the current phase.
    pub fn tick(&self) -> (tick: u16)
        ensures
            tick == self@.tick,
    {
        self.tick
    }

    /// The length of one tick in milliseconds.
    pub fn tick_ms(&self) -> (tick_ms: u64)
        ensures
            tick_ms == self@.tick_ms,
    {
        self.tick_ms
    }

    /// Logs `event`. It never fails.
    pub fn log(&mut self, event: Log)
        ensures
            final(self)@ == old(self)@.logged(event),
            final(self)@.pile.wf(),
    {
        self.pile.push(event);
    }

    /// Begins a phase: logs `entry`, the event that names the phase, and
    /// counts the ticks from zero.
    pub fn begin(&mut self, entry: Log)
        ensures
            final(self)@ == old(self)@.begun(entry),
            final(self)@.pile.wf(),
    {
        self.pile.push(entry);
        self.tick = 0;
    }

    /// Takes note that one more tick went by.
    pub fn advance(&mut self)
        ensures
            final(self)@ == old(self)@.advanced(),
            final(self)@.pile.wf(),
    {
        self.pile.push(Log::Nothing);
        if self.tick < TICK_LIMIT {
            self.tick = self.tick + 1;
        }
    }

    /// Absorbs the outcome of an access to the controller: the caller gets
    /// the value that was read, or `neutral` if the access failed, and the
    /// log gets an event if the access went otherwise than the one before
    /// it.
    pub fn controller<V, E>(&mut self, reading: Result<V, E>, neutral: V) -> (value: V)
        ensures
            value == match reading {
                Ok(read) => read,
                Err(_) => neutral,
            },
            final(self)@ == (ExecutionLogView {
                controller_disconnected: reading is Err,
                ..old(self)@.noted(
                    ConnectivityGuard::transition(
                        Device::Controller,
                        old(self)@.controller_disconnected,
                        reading is Err,
                    ),
                )
            }),
            final(self)@.pile.wf(),
    {
        let (value, failed) = match reading {
            Ok(read) => (read, false),
            Err(_) => (neutral, true),
        };
        let mut guard = ConnectivityGuard::resume(Device::Controller, self.controller_disconnected);
        match guard.observe(failed) {
            Some(event) => self.pile.push(event),
            None => {
                proof {
                    use_type_invariant(&self.pile);
                }
            },
        }
        self.controller_disconnected = guard.is_disconnected();
        value
    }

    /// Drains the log into a report: one line of text for each run of
    /// events, oldest first, with an estimate of the time at which the run
    /// began. The runs are gone from the log afterwards; the tick counter
    /// and what is known of the controller stay.
    pub fn flush_and_report(&mut self) -> (lines: Vec<String>)
        ensures
            final(self)@ == (ExecutionLogView { pile: old(self)@.pile.flushed(), ..old(self)@ }),
            final(self)@.pile.wf(),
            lines@.len() == old(self)@.pile.runs().len(),
            lines@.map_values(|text: String| text@) == report(
                old(self)@.pile.runs(),
                old(self)@.tick_ms,
            ),
    {
        let tick_ms = self.tick_ms;
        let ghost runs = self@.pile.runs();
        let mut entries: Vec<(&Log, AddrCounter)> = Vec::new();
        self.pile.flush_into(&mut entries);
        assert(entries@ == runs.map_values(|run: (Log, AddrCounter)| (&run.0, run.1)));
        let mut lines: Vec<String> = Vec::new();
        let mut ticks: u64 = 0;
        let mut k: usize = 0;
        while k < entries.len()
            invariant
                k <= entries.len(),
                entries@.len() == runs.len(),
                forall|j: int| 0 <= j < runs.len() ==> *(#[trigger] entries@[j]).0 == runs[j].0,
                forall|j: int| 0 <= j < runs.len() ==> (#[trigger] entries@[j]).1 == runs[j].1,
                ticks == if idle_ticks(runs, k as int) <= u64::MAX {
                    idle_ticks(runs, k as int)
                } else {
                    u64::MAX as nat
                },
                lines@.len() == k,
                forall|j: int|
                    0 <= j < k ==> (#[trigger] lines@[j])@ == report(runs, tick_ms)[j],
            decreases entries.len() - k,
        {
            let (event, count) = entries[k];
            let elapsed_ms = match ticks.checked_mul(tick_ms) {
                Some(time) => time,
                None => u64::MAX,
            };
            proof {
                lemma_elapsed_saturates(idle_ticks(runs, k as int), tick_ms);
                assert(elapsed_ms == elapsed(idle_ticks(runs, k as int), tick_ms));
            }
            lines.push(render_line(elapsed_ms, event, count));
            match event {
                Log::Nothing => {
                    ticks = ticks.saturating_add(count as u64);
                },
                _ => {},
            }
            k = k + 1;
        }
        assert(lines@.map_values(|text: String| text@) =~= report(runs, tick_ms));
        lines
    }
}

} // verus!

//! The text of a report: one line for each run of events in the log.
//!
//! A line reads `[<elapsed> ms] <event> x<count>`. The elapsed time is an
//! estimate: the number of ticks that the log marked before the run, times
//! the length of a tick.

use crate::log::{Log, LogView};
use crate::pile::AddrCounter;
use vstd::prelude::*;
use vstd::string::StringExecFns;

verus! {

/// The character that stands for a digit.
pub open spec fn digit_char(digit: nat) -> char {
    if digit == 0 {
        '0'
    } else if digit == 1 {
        '1'
    } else if digit == 2 {
        '2'
    } else if digit == 3 {
        '3'
    } else if digit == 4 {
        '4'
    } else if digit == 5 {
        '5'
    } else if digit == 6 {
        '6'
    } else if digit == 7 {
        '7'
    } else if digit == 8 {
        '8'
    } else {
        '9'
    }
}

/// A number in decimal notation, without leading zeros.
pub open spec fn decimal(n: nat) -> Seq<char>
    decreases n,
{
    if n < 10 {
        seq![digit_char(n)]
    } else {
        decimal(n / 10).push(digit_char(n % 10))
    }
}

/// What an event reads like in a report.
pub open spec fn event_text(event: LogView) -> Seq<char> {
    match event {
        LogView::MotorConnect(port) => "motor "@ + decimal(port as nat) + " connected"@,
        LogView::MotorDisconnect(port) => "motor "@ + decimal(port as nat) + " disconnected"@,
        LogView::ControllerDisconnect => "controller disconnected"@,
        LogView::ControllerConnect => "controller connected"@,
        LogView::Autonomous => "autonomous"@,
        LogView::OpControl => "opcontrol"@,
        LogView::Disabled => "disabled"@,
        LogView::Nothing => "idle"@,
        LogView::Other(text) => text,
    }
}

/// The line of a report for a run of `count` occurrences of `event` that
/// began `elapsed_ms` milliseconds into the report.
pub open spec fn line(elapsed_ms: u64, event: LogView, count: AddrCounter) -> Seq<char> {
    "["@ + decimal(elapsed_ms as nat) + " ms] "@ + event_text(event) + " x"@ + decimal(
        count as nat,
    )
}

/// The number of ticks that the first `k` of `runs` mark: the counts of
/// their runs of tick markers, added up.
pub open spec fn idle_ticks(runs: Seq<(Log, AddrCounter)>, k: int) -> nat
    decreases k,
{
    if k <= 0 {
        0
    } else if runs[k - 1].0@ == LogView::Nothing {
        idle_ticks(runs, k - 1) + runs[k - 1].1 as nat
    } else {
        idle_ticks(runs, k - 1)
    }
}

/// The time that `ticks` ticks of `tick_ms` milliseconds take, in
/// milliseconds, or the largest number of milliseconds that can be told if
/// it is more.
pub open spec fn elapsed(ticks: nat, tick_ms: u64) -> u64 {
    if ticks * tick_ms <= u64::MAX {
        (ticks * tick_ms) as u64
    } else {
        u64::MAX
    }
}

/// The report on `runs`, for ticks of `tick_ms` milliseconds: one line for
/// each run, in order, with the time that the ticks marked before it took.
pub open spec fn report(runs: Seq<(Log, AddrCounter)>, tick_ms: u64) -> Seq<Seq<char>> {
    Seq::new(
        runs.len(),
        |k: int| line(elapsed(idle_ticks(runs, k), tick_ms), runs[k].0@, runs[k].1),
    )
}

/// The text that stands for a digit.
fn digit_text(digit: u8) -> (text: &'static str)
    requires
        digit < 10,
    ensures
        text@ == seq![digit_char(digit as nat)],
{
    proof {
        reveal_strlit("0");
        reveal_strlit("1");
        reveal_strlit("2");
        reveal_strlit("3");
        reveal_strlit("4");
        reveal_strlit("5");
        reveal_strlit("6");
        reveal_strlit("7");
        reveal_strlit("8");
        reveal_strlit("9");
    }
    let text = match digit {
        0 => "0",
        1 => "1",
        2 => "2",
        3 => "3",
        4 => "4",
        5 => "5",
        6 => "6",
        7 => "7",
        8 => "8",
        _ => "9",
    };
    assert(text@ =~= seq![digit_char(digit as nat)]);
    text
}

/// Appends `n` in decimal notation to `out`.
pub fn push_decimal(out: &mut String, n: u64)
    ensures
        final(out)@ == old(out)@ + decimal(n as nat),
    decreases n,
{
    if n >= 10 {
        push_decimal(out, n / 10);
    }
    let digit = digit_text((n % 10) as u8);
    out.append(digit);
    proof {
        if n >= 10 {
            assert(old(out)@ + decimal((n / 10) as nat) + seq![digit_char((n % 10) as nat)]
                =~= old(out)@ + decimal(n as nat));
        }
    }
}

/// Appends what `event` reads like in a report to `out`.
pub fn push_event(out: &mut String, event: &Log)
    ensures
        final(out)@ == old(out)@ + event_text(event@),
{
    match event {
        Log::MotorConnect(port) => {
            out.append("motor ");
            push_decimal(out, *port as u64);
            out.append(" connected");
            assert(out@ =~= old(out)@ + event_text(event@));
        },
        Log::MotorDisconnect(port) => {
            out.append("motor ");
            push_decimal(out, *port as u64);
            out.append(" disconnected");
            assert(out@ =~= old(out)@ + event_text(event@));
        },
        Log::ControllerDisconnect => out.append("controller disconnected"),
        Log::ControllerConnect => out.append("controller connected"),
        Log::Autonomous => out.append("autonomous"),
        Log::OpControl => out.append("opcontrol"),
        Log::Disabled => out.append("disabled"),
        Log::Nothing => out.append("idle"),
        Log::Other(text) => out.append(text.as_str()),
    }
}

/// Writes the line of a report for a run of `count` occurrences of `event`
/// that began `elapsed_ms` milliseconds into the report.
pub fn render_line(elapsed_ms: u64, event: &Log, count: AddrCounter) -> (text: String)
    ensures
        text@ == line(elapsed_ms, event@, count),
{
    let mut text = String::new();
    text.append("[");
    push_decimal(&mut text, elapsed_ms);
    text.append(" ms] ");
    push_event(&mut text, event);
    text.append(" x");
    push_decimal(&mut text, count as u64);
    assert(text@ =~= line(elapsed_ms, event@, count));
    text
}

} // verus!

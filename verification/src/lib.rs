//! A runtime layer that drives user-supplied control logic for a competition
//! robot on a fixed schedule and guards the hardware it shares.
//!
//! The scheduler in `bot` runs the user's code once per tick and looks at a
//! cancellation between ticks only. The port manager in `port` hands each
//! hardware port to one owner. The log in `log` keeps events in a pile that
//! counts repeats, and the guards in `guard` report a device only when it
//! comes or goes.

pub mod adi;
pub mod bind;
pub mod bot;
pub mod context;
pub mod controller;
pub mod error;
pub mod fs;
pub mod guard;
pub mod log;
pub mod maybe;
pub mod pile;
pub mod port;
pub mod prelude;
pub mod report;
pub mod toolchain;

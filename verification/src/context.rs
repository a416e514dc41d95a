//! What a tick of the robot gets to work with.

use crate::log::ExecutionLog;
use crate::port::PortManager;
use vstd::prelude::*;

verus! {

/// The context of one tick: the current state of the robot, as the user's
/// code sees it.
pub struct Context<'a, P> {
    /// The number of the tick within its phase.
    pub tick: u16,
    /// The peripherals of the robot.
    pub peripherals: &'a P,
    /// The robot's port manager.
    pub port_manager: &'a mut PortManager,
    /// The robot's log.
    pub log: &'a mut ExecutionLog,
}

impl<'a, P> Context<'a, P> {
    /// Puts the context of a tick together.
    pub fn new(
        tick: u16,
        peripherals: &'a P,
        port_manager: &'a mut PortManager,
        log: &'a mut ExecutionLog,
    ) -> (context: Self)
        ensures
            context.tick == tick,
            context.peripherals == peripherals,
            *context.port_manager == *old(port_manager),
            *context.log == *old(log),
            *final(port_manager) == *final(context.port_manager),
            *final(log) == *final(context.log),
    {
        Self { tick, peripherals, port_manager, log }
    }
}

} // verus!

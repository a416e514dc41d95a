//! Exclusive ownership of the robot's smart ports.
//!
//! A physical port must never be driven by two drivers at once. The port
//! manager holds one handle per port; a driver takes the handle out and owns
//! the port from then on. A handle cannot be copied, and a port that was taken
//! stays taken.

use vstd::prelude::*;

verus! {

/// The number of smart ports of the robot.
pub const PORT_COUNT: usize = 21;

/// The handle to one smart port. Whoever owns it owns the port.
#[derive(Debug, PartialEq, Eq)]
pub struct SmartPort {
    index: u8,
}

impl View for SmartPort {
    type V = u8;

    /// The index of the port that the handle stands for.
    closed spec fn view(&self) -> u8 {
        self.index
    }
}

impl SmartPort {
    /// The index of the port that the handle stands for.
    pub fn index(&self) -> (index: u8)
        ensures
            index == self@,
    {
        self.index
    }
}

/// Why a port could not be handed out.
#[derive(Debug, Clone, Copy, PartialEq, Eq)]
pub enum PortError {
    /// The index names no port: it is not below the number of ports.
    PortInvalid,
    /// The port was taken before.
    PortTaken,
}

/// Represents the ports of a robot in a way that enforces Rust's rules of
/// ownership and borrowing on them.
pub struct PortManager([Option<SmartPort>; 21]);

impl View for PortManager {
    type V = Seq<Option<SmartPort>>;

    /// The slots in the order of the ports: the handle of a port, or nothing
    /// once it was taken.
    closed spec fn view(&self) -> Seq<Option<SmartPort>> {
        self.0@
    }
}

impl PortManager {
    /// What a lookup of `port` answers on the slots `slots`.
    pub open spec fn lookup(slots: Seq<Option<SmartPort>>, port: u8) -> Result<
        SmartPort,
        PortError,
    > {
        if port >= slots.len() {
            Err(PortError::PortInvalid)
        } else {
            match slots[port as int] {
                Some(handle) => Ok(handle),
                None => Err(PortError::PortTaken),
            }
        }
    }

    /// The slots `slots` after a take of `port`: the slot is empty if it
    /// held a handle, and nothing changes if it did not.
    pub open spec fn after_take(slots: Seq<Option<SmartPort>>, port: u8) -> Seq<Option<SmartPort>> {
        if Self::lookup(slots, port) is Ok {
            slots.update(port as int, None)
        } else {
            slots
        }
    }

    /// A port that was taken is taken: right after a take of a port, whether
    /// it handed the port out or not, a lookup of that port answers
    /// `PortTaken`.
    pub proof fn lemma_take_twice(slots: Seq<Option<SmartPort>>, port: u8)
        requires
            slots.len() == PORT_COUNT,
            port < PORT_COUNT,
        ensures
            Self::lookup(Self::after_take(slots, port), port) == Err::<SmartPort, PortError>(
                PortError::PortTaken,
            ),
            Self::after_take(Self::after_take(slots, port), port) == Self::after_take(slots, port),
    {
    }

    /// A port stays taken: no take, of this port or another, puts a handle
    /// back into an empty slot, and a take of one port leaves the slots of
    /// the others as they are.
    pub proof fn lemma_taken_stays_taken(slots: Seq<Option<SmartPort>>, port: u8, other: u8)
        requires
            slots.len() == PORT_COUNT,
            port < PORT_COUNT,
        ensures
            Self::after_take(slots, other).len() == PORT_COUNT,
            slots[port as int] is None ==> Self::after_take(slots, other)[port as int] is None,
            other != port ==> Self::after_take(slots, other)[port as int] == slots[port as int],
    {
    }

    /// A port manager has one slot for each port.
    pub proof fn lemma_port_count(&self)
        ensures
            self@.len() == PORT_COUNT,
    {
    }

    /// Creates a port manager that holds the handle of every port.
    pub fn new() -> (manager: Self)
        ensures
            manager@.len() == PORT_COUNT,
            forall|port: int|
                0 <= port < PORT_COUNT ==> (#[trigger] manager@[port]) is Some
                    && manager@[port].unwrap()@ == port,
    {
        let manager = Self(
            [
                Some(SmartPort { index: 0 }),
                Some(SmartPort { index: 1 }),
                Some(SmartPort { index: 2 }),
                Some(SmartPort { index: 3 }),
                Some(SmartPort { index: 4 }),
                Some(SmartPort { index: 5 }),
                Some(SmartPort { index: 6 }),
                Some(SmartPort { index: 7 }),
                Some(SmartPort { index: 8 }),
                Some(SmartPort { index: 9 }),
                Some(SmartPort { index: 10 }),
                Some(SmartPort { index: 11 }),
                Some(SmartPort { index: 12 }),
                Some(SmartPort { index: 13 }),
                Some(SmartPort { index: 14 }),
                Some(SmartPort { index: 15 }),
                Some(SmartPort { index: 16 }),
                Some(SmartPort { index: 17 }),
                Some(SmartPort { index: 18 }),
                Some(SmartPort { index: 19 }),
                Some(SmartPort { index: 20 }),
            ],
        );
        manager
    }

    /// Gets a shared reference to a smart port of the robot.
    pub fn get(&self, port: u8) -> (result: Result<&SmartPort, PortError>)
        ensures
            self@.len() == PORT_COUNT,
            match result {
                Ok(handle) => Self::lookup(self@, port) == Ok::<SmartPort, PortError>(*handle),
                Err(error) => Self::lookup(self@, port) == Err::<SmartPort, PortError>(error),
            },
            port >= PORT_COUNT <==> result == Err::<&SmartPort, PortError>(PortError::PortInvalid),
    {
        if port as usize >= PORT_COUNT {
            return Err(PortError::PortInvalid);
        }
        match &self.0[port as usize] {
            Some(handle) => Ok(handle),
            None => Err(PortError::PortTaken),
        }
    }

    /// Gets an exclusive reference to a smart port of the robot. While the
    /// reference lives, nobody else reaches the port manager.
    pub fn get_mut(&mut self, port: u8) -> (result: Result<&mut SmartPort, PortError>)
        ensures
            old(self)@.len() == PORT_COUNT,
            match result {
                Ok(handle) => {
                    &&& Self::lookup(old(self)@, port) == Ok::<SmartPort, PortError>(*handle)
                    &&& final(self)@ == old(self)@.update(port as int, Some(*final(handle)))
                },
                Err(error) => {
                    &&& Self::lookup(old(self)@, port) == Err::<SmartPort, PortError>(error)
                    &&& final(self)@ == old(self)@
                },
            },
    {
        if port as usize >= PORT_COUNT {
            return Err(PortError::PortInvalid);
        }
        match &mut self.0[port as usize] {
            Some(handle) => Ok(handle),
            None => Err(PortError::PortTaken),
        }
    }

    /// Takes ownership of a smart port of the robot. The port is taken from
    /// then on: no later call hands it out again.
    pub fn take(&mut self, port: u8) -> (result: Result<SmartPort, PortError>)
        ensures
            old(self)@.len() == PORT_COUNT,
            result == Self::lookup(old(self)@, port),
            final(self)@ == Self::after_take(old(self)@, port),
    {
        if port as usize >= PORT_COUNT {
            return Err(PortError::PortInvalid);
        }
        match self.0[port as usize].take() {
            Some(handle) => Ok(handle),
            None => Err(PortError::PortTaken),
        }
    }
}

} // verus!

//! Connectivity hysteresis for a device that may come and go.
//!
//! A device that is polled on every tick would flood the log if each failed
//! access were reported. A guard remembers whether the last access failed and
//! reports only the change: once when the device stops answering, once when it
//! answers again. The caller always gets a value to go on with.

use crate::log::{ExecutionLog, Log};
use vstd::prelude::*;

verus! {

/// The device that a guard stands for. It decides which events the guard
/// reports.
#[derive(Debug, Clone, Copy, PartialEq, Eq, Structural)]
pub enum Device {
    /// The controller.
    Controller,
    /// The motor on the given port.
    Motor(u8),
}

impl Device {
    /// The event that tells that the device answers again.
    pub open spec fn spec_connected(self) -> Log {
        match self {
            Device::Controller => Log::ControllerConnect,
            Device::Motor(port) => Log::MotorConnect(port),
        }
    }

    /// The event that tells that the device stopped answering.
    pub open spec fn spec_disconnected(self) -> Log {
        match self {
            Device::Controller => Log::ControllerDisconnect,
            Device::Motor(port) => Log::MotorDisconnect(port),
        }
    }

    /// The event that tells that the device answers again.
    #[verifier::when_used_as_spec(spec_connected)]
    pub fn connected(self) -> (event: Log)
        ensures
            event == self.spec_connected(),
    {
        match self {
            Device::Controller => Log::ControllerConnect,
            Device::Motor(port) => Log::MotorConnect(port),
        }
    }

    /// The event that tells that the device stopped answering.
    #[verifier::when_used_as_spec(spec_disconnected)]
    pub fn disconnected(self) -> (event: Log)
        ensures
            event == self.spec_disconnected(),
    {
        match self {
            Device::Controller => Log::ControllerDisconnect,
            Device::Motor(port) => Log::MotorDisconnect(port),
        }
    }
}

/// Tracks whether a device is connected and reports the changes.
#[derive(Debug, Clone, Copy, PartialEq, Eq, Structural)]
pub struct ConnectivityGuard {
    device: Device,
    disconnected: bool,
}

impl ConnectivityGuard {
    /// The device that the guard stands for.
    pub closed spec fn spec_device(&self) -> Device {
        self.device
    }

    /// Whether the last access to the device failed.
    pub closed spec fn spec_is_disconnected(&self) -> bool {
        self.disconnected
    }

    /// The event that an access reports: a disconnection if the access fails
    /// while the device counts as connected, a connection if it succeeds
    /// while the device counts as disconnected, and nothing if the access
    /// went as the one before it.
    pub open spec fn transition(device: Device, disconnected: bool, failed: bool) -> Option<Log> {
        if failed && !disconnected {
            Some(device.spec_disconnected())
        } else if !failed && disconnected {
            Some(device.spec_connected())
        } else {
            None
        }
    }

    /// The state that a guard is in after the accesses `failures`, from a
    /// guard that started out as `disconnected` tells: the outcome of the
    /// last access.
    pub open spec fn state_after(disconnected: bool, failures: Seq<bool>) -> bool {
        if failures.len() == 0 {
            disconnected
        } else {
            failures.last()
        }
    }

    /// The events that the accesses `failures` report, in order, from a guard
    /// that started out as `disconnected` tells. Each entry of `failures`
    /// says whether that access failed.
    pub open spec fn reported(device: Device, disconnected: bool, failures: Seq<bool>) -> Seq<Log>
        decreases failures.len(),
    {
        if failures.len() == 0 {
            Seq::empty()
        } else {
            let before = failures.drop_last();
            let earlier = Self::reported(device, disconnected, before);
            match Self::transition(
                device,
                Self::state_after(disconnected, before),
                failures.last(),
            ) {
                Some(event) => earlier.push(event),
                None => earlier,
            }
        }
    }

    /// An access that goes as the one before it reports nothing: the events
    /// of a sequence of accesses do not change when its last outcome is
    /// repeated.
    pub proof fn lemma_repeat_is_silent(device: Device, disconnected: bool, failures: Seq<bool>)
        ensures
            Self::reported(
                device,
                disconnected,
                failures.push(Self::state_after(disconnected, failures)),
            ) == Self::reported(device, disconnected, failures),
    {
        let repeated = failures.push(Self::state_after(disconnected, failures));
        assert(repeated.drop_last() == failures);
    }

    /// An access that goes otherwise than the one before it reports exactly
    /// one event: the disconnection if it failed, the connection if it did
    /// not.
    pub proof fn lemma_change_is_reported(
        device: Device,
        disconnected: bool,
        failures: Seq<bool>,
        failed: bool,
    )
        requires
            failed != Self::state_after(disconnected, failures),
        ensures
            Self::reported(device, disconnected, failures.push(failed)) == Self::reported(
                device,
                disconnected,
                failures,
            ).push(
                if failed {
                    device.spec_disconnected()
                } else {
                    device.spec_connected()
                },
            ),
    {
        assert(failures.push(failed).drop_last() == failures);
    }

    /// Creates the guard of `device`. A device counts as connected until an
    /// access to it fails.
    pub fn new(device: Device) -> (guard: Self)
        ensures
            guard.spec_device() == device,
            !guard.spec_is_disconnected(),
    {
        Self { device, disconnected: false }
    }

    /// Creates the guard of `device` in the state that `disconnected`
    /// tells: whether the last access to the device failed.
    pub fn resume(device: Device, disconnected: bool) -> (guard: Self)
        ensures
            guard.spec_device() == device,
            guard.spec_is_disconnected() == disconnected,
    {
        Self { device, disconnected }
    }

    /// The device that the guard stands for.
    #[verifier::when_used_as_spec(spec_device)]
    pub fn device(&self) -> (device: Device)
        ensures
            device == self.spec_device(),
    {
        self.device
    }

    /// Whether the last access to the device failed.
    #[verifier::when_used_as_spec(spec_is_disconnected)]
    pub fn is_disconnected(&self) -> (disconnected: bool)
        ensures
            disconnected == self.spec_is_disconnected(),
    {
        self.disconnected
    }

    /// Takes note of an access to the device and returns the event to
    /// report, if the access went otherwise than the one before it.
    pub fn observe(&mut self, failed: bool) -> (event: Option<Log>)
        ensures
            event == Self::transition(old(self).device(), old(self).is_disconnected(), failed),
            final(self).device() == old(self).device(),
            final(self).is_disconnected() == failed,
    {
        let event = if failed && !self.disconnected {
            Some(self.device.disconnected())
        } else if !failed && self.disconnected {
            Some(self.device.connected())
        } else {
            None
        };
        self.disconnected = failed;
        event
    }

    /// Absorbs the outcome of an access to the device: the caller gets the
    /// value that was read, or `neutral` if the access failed, and `log`
    /// gets an event if the access went otherwise than the one before it.
    pub fn guard<V, E>(&mut self, reading: Result<V, E>, neutral: V, log: &mut ExecutionLog) -> (value:
        V)
        ensures
            value == match reading {
                Ok(read) => read,
                Err(_) => neutral,
            },
            final(self).device() == old(self).device(),
            final(self).is_disconnected() == reading is Err,
            final(log)@ == old(log)@.noted(
                Self::transition(old(self).device(), old(self).is_disconnected(), reading is Err),
            ),
    {
        let (value, failed) = match reading {
            Ok(read) => (read, false),
            Err(_) => (neutral, true),
        };
        match self.observe(failed) {
            Some(event) => log.log(event),
            None => {},
        }
        value
    }
}

} // verus!

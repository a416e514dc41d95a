//! The errors of the firmware.
//!
//! The firmware reports a failure in two steps: the function returns a value
//! that no success can produce, and the reason is left in `errno`.

use vstd::prelude::*;

verus! {

/// The value that a function of the firmware with an integer result returns
/// on failure.
pub const PROS_ERR: i32 = 2147483647;

/// The errors that the firmware reports.
#[derive(Debug, Clone, Copy, PartialEq, Eq, Structural)]
pub enum PROSErr {
    /// No errors.
    NoError,
    /// No such file or directory.
    NoEntry,
    /// I/O error.
    IO,
    /// No such device or address.
    NXIO,
    /// No more processes.
    Again,
    /// Permission denied.
    Access,
    /// Mount device busy.
    Busy,
    /// File exists.
    Exists,
    /// No such device.
    NoDev,
    /// Invalid argument.
    Invalid,
    /// Read-only file system.
    ReadOnlyFS,
    /// No more files.
    NoMoreFiles,
    /// No buffer space available.
    NoBuffSpace,
    /// Address already in use or not configured correctly.
    AddrInUse,
}

impl PROSErr {
    /// The value of `errno` that stands for the error.
    pub open spec fn spec_code(self) -> i32 {
        match self {
            PROSErr::NoError => 0,
            PROSErr::NoEntry => 2,
            PROSErr::IO => 5,
            PROSErr::NXIO => 6,
            PROSErr::Again => 11,
            PROSErr::Access => 13,
            PROSErr::Busy => 16,
            PROSErr::Exists => 17,
            PROSErr::NoDev => 19,
            PROSErr::Invalid => 22,
            PROSErr::ReadOnlyFS => 30,
            PROSErr::NoMoreFiles => 89,
            PROSErr::NoBuffSpace => 105,
            PROSErr::AddrInUse => 112,
        }
    }

    /// The error that a value of `errno` stands for, if it stands for one.
    pub open spec fn spec_from_code(code: i32) -> Option<PROSErr> {
        if code == 0 {
            Some(PROSErr::NoError)
        } else if code == 2 {
            Some(PROSErr::NoEntry)
        } else if code == 5 {
            Some(PROSErr::IO)
        } else if code == 6 {
            Some(PROSErr::NXIO)
        } else if code == 11 {
            Some(PROSErr::Again)
        } else if code == 13 {
            Some(PROSErr::Access)
        } else if code == 16 {
            Some(PROSErr::Busy)
        } else if code == 17 {
            Some(PROSErr::Exists)
        } else if code == 19 {
            Some(PROSErr::NoDev)
        } else if code == 22 {
            Some(PROSErr::Invalid)
        } else if code == 30 {
            Some(PROSErr::ReadOnlyFS)
        } else if code == 89 {
            Some(PROSErr::NoMoreFiles)
        } else if code == 105 {
            Some(PROSErr::NoBuffSpace)
        } else if code == 112 {
            Some(PROSErr::AddrInUse)
        } else {
            None
        }
    }

    /// An error and its value of `errno` stand for each other: the value of
    /// an error leads back to the error, and a value leads to an error only
    /// if it is the value of that error.
    pub proof fn lemma_code_round_trip(error: PROSErr, code: i32)
        ensures
            Self::spec_from_code(error.spec_code()) == Some(error),
            Self::spec_from_code(code) == Some(error) ==> error.spec_code() == code,
    {
    }

    /// The value of `errno` that stands for the error.
    #[verifier::when_used_as_spec(spec_code)]
    pub fn code(self) -> (code: i32)
        ensures
            code == self.spec_code(),
    {
        match self {
            PROSErr::NoError => 0,
            PROSErr::NoEntry => 2,
            PROSErr::IO => 5,
            PROSErr::NXIO => 6,
            PROSErr::Again => 11,
            PROSErr::Access => 13,
            PROSErr::Busy => 16,
            PROSErr::Exists => 17,
            PROSErr::NoDev => 19,
            PROSErr::Invalid => 22,
            PROSErr::ReadOnlyFS => 30,
            PROSErr::NoMoreFiles => 89,
            PROSErr::NoBuffSpace => 105,
            PROSErr::AddrInUse => 112,
        }
    }

    /// The error that a value of `errno` stands for, if it stands for one.
    #[verifier::when_used_as_spec(spec_from_code)]
    pub fn from_code(code: i32) -> (error: Option<PROSErr>)
        ensures
            error == Self::spec_from_code(code),
    {
        match code {
            0 => Some(PROSErr::NoError),
            2 => Some(PROSErr::NoEntry),
            5 => Some(PROSErr::IO),
            6 => Some(PROSErr::NXIO),
            11 => Some(PROSErr::Again),
            13 => Some(PROSErr::Access),
            16 => Some(PROSErr::Busy),
            17 => Some(PROSErr::Exists),
            19 => Some(PROSErr::NoDev),
            22 => Some(PROSErr::Invalid),
            30 => Some(PROSErr::ReadOnlyFS),
            89 => Some(PROSErr::NoMoreFiles),
            105 => Some(PROSErr::NoBuffSpace),
            112 => Some(PROSErr::AddrInUse),
            _ => None,
        }
    }
}

/// A result of the firmware that may stand for a failure: some value of the
/// type is the sentinel that no success can produce.
pub trait PROSResult: Sized {
    /// Whether the value is the sentinel.
    spec fn is_sentinel(&self) -> bool;

    /// Checks whether the value stands for a success, and gives `errno`,
    /// the error that the firmware left behind, if it does not.
    fn check(self, errno: PROSErr) -> (result: Result<Self, PROSErr>)
        ensures
            result == if self.is_sentinel() {
                Err::<Self, PROSErr>(errno)
            } else {
                Ok::<Self, PROSErr>(self)
            },
    ;
}

impl PROSResult for i32 {
    open spec fn is_sentinel(&self) -> bool {
        *self == PROS_ERR
    }

    fn check(self, errno: PROSErr) -> (result: Result<Self, PROSErr>) {
        if self == PROS_ERR {
            Err(errno)
        } else {
            Ok(self)
        }
    }
}

/// Checks whether an integer result of the firmware stands for a success,
/// and asks `errno` for the error that the firmware left behind only if it
/// does not.
pub fn check_with<F: FnOnce() -> PROSErr>(value: i32, errno: F) -> (result: Result<i32, PROSErr>)
    requires
        call_requires(errno, ()),
    ensures
        match result {
            Ok(checked) => !value.is_sentinel() && checked == value,
            Err(error) => value.is_sentinel() && call_ensures(errno, (), error),
        },
{
    if value == PROS_ERR {
        let error = errno();
        value.check(error)
    } else {
        Ok(value)
    }
}

} // verus!

//! The exit codes of `<sysexits.h>` as plain constants: a type that knows
//! its number and whether it means success, and nothing else.

use vstd::prelude::*;
use vstd::std_specs::convert::FromSpecImpl;

verus! {

/// `SysExits` is a type that represents the system exit code constants as
/// defined by `<sysexits.h>`.
///
/// The number that stands for a variant is given by [`SysExits::value`] in
/// contracts and by `u8::from` in executable code. A cast with `as` gives the
/// variant's position in this list, not that number.
#[derive(Clone, Copy, Debug)]
pub enum SysExits {
    /// The successful exit, 0.
    Success,
    /// The command was used incorrectly: the wrong number of arguments, a
    /// bad flag, bad syntax in a parameter. 64.
    Usage,
    /// The input data was incorrect in some way. For the user's data only,
    /// not for system files. 65.
    DataErr,
    /// An input file (not a system file) did not exist or was not readable.
    /// 66.
    NoInput,
    /// The user specified did not exist. 67.
    NoUser,
    /// The host specified did not exist. 68.
    NoHost,
    /// A service is unavailable, or something that was to be done did not
    /// work for a reason that is not known. 69.
    Unavailable,
    /// An internal software error was detected. 70.
    Software,
    /// An operating system error was detected, such as "cannot fork" or
    /// "cannot create pipe". 71.
    OsErr,
    /// A system file does not exist, cannot be opened, or is malformed. 72.
    OsFile,
    /// An output file that the user specified cannot be created. 73.
    CantCreat,
    /// An error occurred while doing I/O on some file. 74.
    IoErr,
    /// A temporary failure: the request may succeed when tried again. 75.
    TempFail,
    /// The remote system returned something that was "not possible" during
    /// a protocol exchange. 76.
    Protocol,
    /// There was not sufficient permission to perform the operation. 77.
    NoPerm,
    /// Something was found in an unconfigured or misconfigured state. 78.
    Config,
}

impl SysExits {
    /// The number that stands for this exit code.
    pub open spec fn value(self) -> int {
        match self {
            SysExits::Success => 0,
            SysExits::Usage => 64,
            SysExits::DataErr => 65,
            SysExits::NoInput => 66,
            SysExits::NoUser => 67,
            SysExits::NoHost => 68,
            SysExits::Unavailable => 69,
            SysExits::Software => 70,
            SysExits::OsErr => 71,
            SysExits::OsFile => 72,
            SysExits::CantCreat => 73,
            SysExits::IoErr => 74,
            SysExits::TempFail => 75,
            SysExits::Protocol => 76,
            SysExits::NoPerm => 77,
            SysExits::Config => 78,
        }
    }

    /// What [`SysExits::is_success`] means in contracts.
    pub open spec fn spec_is_success(self) -> bool {
        self == SysExits::Success
    }

    /// What [`SysExits::is_failure`] means in contracts.
    pub open spec fn spec_is_failure(self) -> bool {
        self != SysExits::Success
    }

    /// Returns `true` if this system exit code represents successful
    /// termination.
    #[must_use]
    #[verifier::when_used_as_spec(spec_is_success)]
    pub fn is_success(self) -> (r: bool)
        ensures
            r == self.spec_is_success(),
    {
        matches!(self, SysExits::Success)
    }

    /// Returns `true` if this system exit code represents unsuccessful
    /// termination.
    #[must_use]
    #[verifier::when_used_as_spec(spec_is_failure)]
    pub fn is_failure(self) -> (r: bool)
        ensures
            r == self.spec_is_failure(),
    {
        !self.is_success()
    }

    /// `is_failure` is the negation of `is_success`; success is the exit
    /// code whose number is 0, and the number of a failure is in 64..=78.
    pub proof fn lemma_failure_is_not_success(code: SysExits)
        ensures
            code.is_failure() == !code.is_success(),
            code.is_success() <==> code.value() == 0,
            code.is_failure() <==> 64 <= code.value() <= 78,
    {
    }
}

impl FromSpecImpl<SysExits> for u8 {
    open spec fn obeys_from_spec() -> bool {
        true
    }

    open spec fn from_spec(code: SysExits) -> u8 {
        code.value() as u8
    }
}

impl From<SysExits> for u8 {
    /// Converts a `SysExits` into the number that stands for it, the status
    /// to hand to the host.
    ///
    /// The resulting value is `0` or in `64..=78`.
    fn from(code: SysExits) -> (n: u8)
        ensures
            n == code.value(),
    {
        match code {
            SysExits::Success => 0,
            SysExits::Usage => 64,
            SysExits::DataErr => 65,
            SysExits::NoInput => 66,
            SysExits::NoUser => 67,
            SysExits::NoHost => 68,
            SysExits::Unavailable => 69,
            SysExits::Software => 70,
            SysExits::OsErr => 71,
            SysExits::OsFile => 72,
            SysExits::CantCreat => 73,
            SysExits::IoErr => 74,
            SysExits::TempFail => 75,
            SysExits::Protocol => 76,
            SysExits::NoPerm => 77,
            SysExits::Config => 78,
        }
    }
}

} // verus!

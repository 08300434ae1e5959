//! The exit code type and what can be asked of a single value of it.

use vstd::prelude::*;

mod consts;
mod convert;
mod fmt;
pub mod result;

verus! {

/// One of the sixteen exit codes of `<sysexits.h>`.
///
/// The number that stands for a variant is given by [`ExitCode::value`] in
/// contracts and by `u8::from` (or any other integer type's `from`) in
/// executable code. A cast with `as` gives the variant's position in this
/// list, not that number.
#[derive(Clone, Copy, Debug, PartialEq, Eq, Structural)]
pub enum ExitCode {
    /// The successful exit, 0.
    Success,
    /// The command was used incorrectly: the wrong number of arguments, a
    /// bad flag, bad syntax in a parameter. 64.
    Usage,
    /// The input data was incorrect in some way. For the user's data only,
    /// not for system files. 65.
    DataErr,
    /// An input file (not a system file) did not exist or was not readable.
    /// 66.
    NoInput,
    /// The user specified did not exist. 67.
    NoUser,
    /// The host specified did not exist. 68.
    NoHost,
    /// A service is unavailable, or something that was to be done did not
    /// work for a reason that is not known. 69.
    Unavailable,
    /// An internal software error was detected. 70.
    Software,
    /// An operating system error was detected, such as "cannot fork" or
    /// "cannot create pipe". 71.
    OsErr,
    /// A system file does not exist, cannot be opened, or is malformed. 72.
    OsFile,
    /// An output file that the user specified cannot be created. 73.
    CantCreat,
    /// An error occurred while doing I/O on some file. 74.
    IoErr,
    /// A temporary failure: the request may succeed when tried again. 75.
    TempFail,
    /// The remote system returned something that was "not possible" during
    /// a protocol exchange. 76.
    Protocol,
    /// There was not sufficient permission to perform the operation. 77.
    NoPerm,
    /// Something was found in an unconfigured or misconfigured state. 78.
    Config,
}

impl ExitCode {
    /// The number that stands for this exit code.
    pub open spec fn value(self) -> int {
        match self {
            ExitCode::Success => 0,
            ExitCode::Usage => 64,
            ExitCode::DataErr => 65,
            ExitCode::NoInput => 66,
            ExitCode::NoUser => 67,
            ExitCode::NoHost => 68,
            ExitCode::Unavailable => 69,
            ExitCode::Software => 70,
            ExitCode::OsErr => 71,
            ExitCode::OsFile => 72,
            ExitCode::CantCreat => 73,
            ExitCode::IoErr => 74,
            ExitCode::TempFail => 75,
            ExitCode::Protocol => 76,
            ExitCode::NoPerm => 77,
            ExitCode::Config => 78,
        }
    }

    /// Whether `n` stands for an exit code: it is 0 or lies in 64..=78.
    pub open spec fn is_value(n: int) -> bool {
        n == 0 || 64 <= n <= 78
    }

    /// The exit code that `n` stands for, `None` where it stands for none.
    pub open spec fn from_value(n: int) -> Option<ExitCode> {
        if n == 0 {
            Some(ExitCode::Success)
        } else if n == 64 {
            Some(ExitCode::Usage)
        } else if n == 65 {
            Some(ExitCode::DataErr)
        } else if n == 66 {
            Some(ExitCode::NoInput)
        } else if n == 67 {
            Some(ExitCode::NoUser)
        } else if n == 68 {
            Some(ExitCode::NoHost)
        } else if n == 69 {
            Some(ExitCode::Unavailable)
        } else if n == 70 {
            Some(ExitCode::Software)
        } else if n == 71 {
            Some(ExitCode::OsErr)
        } else if n == 72 {
            Some(ExitCode::OsFile)
        } else if n == 73 {
            Some(ExitCode::CantCreat)
        } else if n == 74 {
            Some(ExitCode::IoErr)
        } else if n == 75 {
            Some(ExitCode::TempFail)
        } else if n == 76 {
            Some(ExitCode::Protocol)
        } else if n == 77 {
            Some(ExitCode::NoPerm)
        } else if n == 78 {
            Some(ExitCode::Config)
        } else {
            None
        }
    }

    /// What [`ExitCode::is_success`] means in contracts.
    pub open spec fn spec_is_success(&self) -> bool {
        *self == ExitCode::Success
    }

    /// What [`ExitCode::is_failure`] means in contracts.
    pub open spec fn spec_is_failure(&self) -> bool {
        *self != ExitCode::Success
    }

    /// Returns `true` if this exit code represents successful termination.
    #[must_use]
    #[inline]
    #[verifier::when_used_as_spec(spec_is_success)]
    pub fn is_success(&self) -> (r: bool)
        ensures
            r == self.spec_is_success(),
    {
        matches!(self, ExitCode::Success)
    }

    /// Returns `true` if this exit code represents unsuccessful termination.
    #[must_use]
    #[inline]
    #[verifier::when_used_as_spec(spec_is_failure)]
    pub fn is_failure(&self) -> (r: bool)
        ensures
            r == self.spec_is_failure(),
    {
        !self.is_success()
    }

    /// The numbers and the exit codes stand one for one. The number of an
    /// exit code is 0 or lies in 64..=78, and stands for that exit code
    /// again; two exit codes with one number are one exit code; and a number
    /// stands for an exit code exactly when it is 0 or lies in 64..=78.
    pub proof fn lemma_value_is_bijective(code: ExitCode, other: ExitCode, n: int)
        ensures
            ExitCode::is_value(code.value()),
            ExitCode::from_value(code.value()) == Some(code),
            code.value() == other.value() ==> code == other,
            ExitCode::from_value(n) == Some(code) <==> code.value() == n,
            ExitCode::from_value(n) is Some <==> ExitCode::is_value(n),
    {
    }

    /// `is_failure` is the negation of `is_success`. Success is the one exit
    /// code whose number is 0, and the number of a failure lies in 64..=78.
    pub proof fn lemma_failure_is_not_success(code: ExitCode)
        ensures
            code.is_failure() == !code.is_success(),
            code.is_success() <==> code.value() == 0,
            code.is_failure() <==> 64 <= code.value() <= 78,
    {
    }
}

impl Default for ExitCode {
    /// The default exit code is the successful one.
    fn default() -> (code: ExitCode)
        ensures
            code == ExitCode::Success,
    {
        ExitCode::Success
    }
}

} // verus!

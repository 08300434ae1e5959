//! From the status that a process ended with to an exit code.

use vstd::prelude::*;
use vstd::std_specs::convert::TryFromSpecImpl;

use crate::error::TryFromExitStatusError;
use crate::exit_code::ExitCode;

verus! {

impl ExitCode {
    /// What the conversion from a process status returns. The status is the
    /// code that the process exited with, `None` if it ended without one.
    ///
    /// A code that stands for an exit code gives that exit code. Any other
    /// code gives an error that holds the code, and no code gives an error
    /// that holds none.
    pub open spec fn of_status(status: Option<i32>) -> Result<ExitCode, TryFromExitStatusError> {
        match status {
            Some(n) => match ExitCode::from_value(n as int) {
                Some(code) => Ok(code),
                None => Err(TryFromExitStatusError::new(Some(n))),
            },
            None => Err(TryFromExitStatusError::new(None)),
        }
    }
}

impl TryFromSpecImpl<Option<i32>> for ExitCode {
    open spec fn obeys_try_from_spec() -> bool {
        true
    }

    open spec fn try_from_spec(status: Option<i32>) -> Result<ExitCode, TryFromExitStatusError> {
        ExitCode::of_status(status)
    }
}

impl TryFrom<Option<i32>> for ExitCode {
    type Error = TryFromExitStatusError;

    /// Converts the status that a process ended with into an `ExitCode`.
    /// The status is what `std::process::ExitStatus::code` returns.
    ///
    /// # Errors
    ///
    /// Returns [`Err`] if any of the following are true:
    ///
    /// - The exit code is not `0` or `64..=78`.
    /// - The exit code is unknown (e.g., the process was terminated by a
    ///   signal).
    #[inline]
    fn try_from(status: Option<i32>) -> (r: Result<ExitCode, TryFromExitStatusError>)
        ensures
            r == ExitCode::of_status(status),
            r is Ok <==> (status matches Some(n) && (n == 0 || 64 <= n <= 78)),
            r matches Err(error) ==> error.code() == status,
    {
        match status {
            Some(n) => match ExitCode::try_from(n) {
                Ok(code) => Ok(code),
                Err(_) => Err(TryFromExitStatusError::new(Some(n))),
            },
            None => Err(TryFromExitStatusError::new(None)),
        }
    }
}

} // verus!

//! Error types for the conversions that can fail.

use vstd::prelude::*;

use crate::decimal::{decimal, push_decimal};

verus! {

/// The error of a conversion from an integer that stands for no
/// [`ExitCode`](crate::ExitCode): one that is neither 0 nor in 64..=78.
#[derive(Clone, Copy, Debug, PartialEq, Eq, Structural)]
pub struct ExitCodeRangeError;

impl ExitCodeRangeError {
    /// The message of this error.
    pub open spec fn message(&self) -> Seq<char> {
        "value is out of range for `ExitCode`"@
    }

    /// Returns the message of this error:
    /// ``value is out of range for `ExitCode` ``.
    #[must_use]
    pub fn to_string(&self) -> (s: String)
        ensures
            s@ == self.message(),
    {
        String::from_str("value is out of range for `ExitCode`")
    }
}

/// The error of a conversion from a process status that stands for no
/// [`ExitCode`](crate::ExitCode).
///
/// It holds what the process exited with: `Some(n)` for a code `n` that is
/// neither 0 nor in 64..=78, `None` for a process that ended without a code,
/// as one that a signal terminated.
#[derive(Clone, Copy, Debug, PartialEq, Eq, Structural)]
pub struct TryFromExitStatusError(Option<i32>);

impl TryFromExitStatusError {
    /// What [`TryFromExitStatusError::new`] means in contracts.
    pub closed spec fn spec_new(code: Option<i32>) -> Self {
        Self(code)
    }

    /// What [`TryFromExitStatusError::code`] means in contracts.
    pub closed spec fn spec_code(&self) -> Option<i32> {
        self.0
    }

    /// An error for a process that exited with `code`, or without a code.
    #[inline]
    #[verifier::when_used_as_spec(spec_new)]
    pub fn new(code: Option<i32>) -> (error: Self)
        ensures
            error == Self::spec_new(code),
            error.code() == code,
    {
        Self(code)
    }

    /// Returns the code that the process exited with.
    ///
    /// Returns [`None`] if the process was terminated by a signal.
    #[must_use]
    #[inline]
    #[verifier::when_used_as_spec(spec_code)]
    pub fn code(&self) -> (code: Option<i32>)
        ensures
            code == self.spec_code(),
    {
        self.0
    }

    /// The message of this error: the code in decimal between backticks,
    /// after `invalid exit code`, or a sentence for an error without a code.
    pub open spec fn message(&self) -> Seq<char> {
        match self.code() {
            Some(code) => "invalid exit code `"@ + decimal(code as int) + "`"@,
            None => "exit code is unknown"@,
        }
    }

    /// Returns the message of this error: ``invalid exit code `N` `` for an
    /// error that holds the code `N`, and `exit code is unknown` for one
    /// that holds none.
    #[must_use]
    pub fn to_string(&self) -> (s: String)
        ensures
            s@ == self.message(),
    {
        match self.0 {
            Some(code) => {
                let mut s = String::from_str("invalid exit code `");
                push_decimal(&mut s, code);
                s.append("`");
                s
            },
            None => String::from_str("exit code is unknown"),
        }
    }

    /// An error is what it was made from: `new` and `code` are inverse to
    /// each other, so two errors are equal exactly when their codes are.
    pub proof fn lemma_new_and_code(error: Self, code: Option<i32>)
        ensures
            Self::new(code).code() == code,
            Self::new(error.code()) == error,
            error == Self::new(code) <==> error.code() == code,
    {
    }
}

} // verus!

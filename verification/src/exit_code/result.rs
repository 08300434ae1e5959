//! Error handling with the [`Result`] type based on [`ExitCode`].

use vstd::prelude::*;
use vstd::std_specs::convert::FromSpecImpl;

use super::ExitCode;

verus! {

/// A [`Result`](core::result::Result) type based on [`ExitCode`].
///
/// In case of an error, the variant of [`ExitCode`] in it says what went
/// wrong.
pub type Result<T> = core::result::Result<T, ExitCode>;

impl ExitCode {
    /// The exit code that a result comes down to: success for `Ok`, whatever
    /// it holds, and for `Err` the exit code in it.
    pub open spec fn of_result<T>(result: Result<T>) -> ExitCode {
        match result {
            Ok(_) => ExitCode::Success,
            Err(code) => code,
        }
    }

    /// A result that is `Ok` comes down to success, whatever it holds, and
    /// one that is `Err` to the exit code in it, unchanged.
    pub proof fn lemma_result_collapse<T>(value: T, code: ExitCode)
        ensures
            ExitCode::of_result(Ok::<T, ExitCode>(value)) == ExitCode::Success,
            ExitCode::of_result(Err::<T, ExitCode>(code)) == code,
    {
    }
}

impl<T> FromSpecImpl<Result<T>> for ExitCode {
    open spec fn obeys_from_spec() -> bool {
        true
    }

    open spec fn from_spec(result: Result<T>) -> ExitCode {
        ExitCode::of_result(result)
    }
}

impl<T> From<Result<T>> for ExitCode {
    /// Converts a [`Result<T>`] into an `ExitCode`.
    ///
    /// This method returns [`ExitCode::Success`] if the result is [`Ok`],
    /// otherwise returns the variant of `ExitCode` contained in the [`Err`]
    /// variant.
    #[inline]
    fn from(result: Result<T>) -> (code: ExitCode)
        ensures
            code == ExitCode::of_result(result),
    {
        match result {
            Ok(_) => ExitCode::Success,
            Err(code) => code,
        }
    }
}

} // verus!

//! Constants for [`ExitCode`].

use vstd::prelude::*;

use super::ExitCode;

verus! {

impl ExitCode {
    /// The base value for `ExitCode`: the failure with the lowest number.
    pub const BASE: ExitCode = ExitCode::Usage;

    /// The maximum value for `ExitCode`: the exit code with the highest
    /// number.
    pub const MAX: ExitCode = ExitCode::Config;

    /// `BASE` is `Usage` and `MAX` is `Config`. Of all the numbers that are
    /// not 0, that of `BASE` is the lowest; of all the numbers, that of `MAX`
    /// is the highest.
    pub proof fn lemma_base_and_max(code: ExitCode)
        ensures
            ExitCode::BASE == ExitCode::Usage,
            ExitCode::MAX == ExitCode::Config,
            code.value() != 0 ==> ExitCode::BASE.value() <= code.value(),
            code.value() <= ExitCode::MAX.value(),
    {
    }
}

} // verus!

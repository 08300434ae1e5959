//! The textual rendering of an [`ExitCode`].

use vstd::prelude::*;

use super::ExitCode;
use crate::decimal::{decimal, push_digits};

verus! {

impl ExitCode {
    /// Shows the integer representation of this `ExitCode`: the number that
    /// stands for it, in decimal, as in `"0"` and `"64"`.
    ///
    /// For another base, format what `u8::from` returns.
    #[must_use]
    pub fn to_string(&self) -> (s: String)
        ensures
            s@ == decimal(self.value()),
    {
        let mut s = String::new();
        push_digits(&mut s, u32::from(*self));
        s
    }
}

} // verus!

//! What this crate takes from `std::io`: the two types that the conversion
//! from I/O errors reads, and the one method that it calls. Verus proves
//! nothing of `std`; what is stated here is believed.

use std::io::{Error, ErrorKind};

use vstd::prelude::*;

verus! {

/// `std::io::ErrorKind`, declared with its variants, which Verus reads from
/// `std` itself: nothing is claimed of them here. The table of
/// [`ExitCode::of_error_kind`](crate::ExitCode::of_error_kind) tells them
/// apart.
#[verifier::external_type_specification]
pub struct ExErrorKind(ErrorKind);

/// `std::io::Error`, as a value that is carried and never looked into.
#[verifier::external_type_specification]
#[verifier::external_body]
pub struct ExError(Error);

/// The kind of the I/O error `error`: what `std::io::Error::kind` returns
/// for it.
pub uninterp spec fn kind_of(error: Error) -> ErrorKind;

/// `std::io::Error::kind` returns the kind of the error that it is called
/// on. The kind belongs to the error: asking twice gives the same answer.
/// Which kind an error has is not stated.
pub assume_specification[ Error::kind ](error: &Error) -> (kind: ErrorKind)
    ensures
        kind == kind_of(*error),
;

} // verus!

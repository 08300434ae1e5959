//! From an I/O error and from its kind to the exit code that describes it
//! best.

use std::io::{Error, ErrorKind};

use vstd::prelude::*;
use vstd::std_specs::convert::FromSpecImpl;

use crate::exit_code::ExitCode;
use crate::io::kind_of;

verus! {

impl ExitCode {
    /// The exit code for each kind of I/O error. The table is many-to-one:
    /// it gives the best approximation, and `IoErr` for every kind that it
    /// does not name.
    pub open spec fn of_error_kind(kind: ErrorKind) -> ExitCode {
        match kind {
            ErrorKind::NotFound => ExitCode::NoInput,
            ErrorKind::PermissionDenied => ExitCode::NoPerm,
            ErrorKind::ConnectionRefused
            | ErrorKind::HostUnreachable
            | ErrorKind::NetworkUnreachable
            | ErrorKind::OutOfMemory => ExitCode::OsErr,
            ErrorKind::ConnectionReset
            | ErrorKind::ConnectionAborted
            | ErrorKind::NotConnected
            | ErrorKind::BrokenPipe
            | ErrorKind::TimedOut
            | ErrorKind::Interrupted => ExitCode::TempFail,
            ErrorKind::AddrInUse
            | ErrorKind::AddrNotAvailable
            | ErrorKind::NetworkDown => ExitCode::Unavailable,
            ErrorKind::AlreadyExists | ErrorKind::ReadOnlyFilesystem => ExitCode::CantCreat,
            ErrorKind::WouldBlock | ErrorKind::Unsupported => ExitCode::Protocol,
            ErrorKind::InvalidInput | ErrorKind::InvalidData => ExitCode::DataErr,
            ErrorKind::WriteZero | ErrorKind::UnexpectedEof => ExitCode::Software,
            _ => ExitCode::IoErr,
        }
    }

    /// Whether the table of [`ExitCode::of_error_kind`] names `kind`.
    pub open spec fn names_error_kind(kind: ErrorKind) -> bool {
        matches!(
            kind,
            ErrorKind::NotFound
                | ErrorKind::PermissionDenied
                | ErrorKind::ConnectionRefused
                | ErrorKind::HostUnreachable
                | ErrorKind::NetworkUnreachable
                | ErrorKind::OutOfMemory
                | ErrorKind::ConnectionReset
                | ErrorKind::ConnectionAborted
                | ErrorKind::NotConnected
                | ErrorKind::BrokenPipe
                | ErrorKind::TimedOut
                | ErrorKind::Interrupted
                | ErrorKind::AddrInUse
                | ErrorKind::AddrNotAvailable
                | ErrorKind::NetworkDown
                | ErrorKind::AlreadyExists
                | ErrorKind::ReadOnlyFilesystem
                | ErrorKind::WouldBlock
                | ErrorKind::Unsupported
                | ErrorKind::InvalidInput
                | ErrorKind::InvalidData
                | ErrorKind::WriteZero
                | ErrorKind::UnexpectedEof
        )
    }

    /// Every kind of I/O error has its exit code, and that is a failure. A
    /// kind that the table does not name gives `IoErr`, and no kind that it
    /// names does. Six exit codes are given to no kind.
    pub proof fn lemma_error_kind_table(kind: ErrorKind)
        ensures
            ExitCode::of_error_kind(kind).is_failure(),
            !ExitCode::names_error_kind(kind) ==> ExitCode::of_error_kind(kind) == ExitCode::IoErr,
            ExitCode::names_error_kind(kind) ==> ExitCode::of_error_kind(kind) != ExitCode::IoErr,
            ExitCode::of_error_kind(kind) != ExitCode::Success,
            ExitCode::of_error_kind(kind) != ExitCode::Usage,
            ExitCode::of_error_kind(kind) != ExitCode::NoUser,
            ExitCode::of_error_kind(kind) != ExitCode::NoHost,
            ExitCode::of_error_kind(kind) != ExitCode::OsFile,
            ExitCode::of_error_kind(kind) != ExitCode::Config,
    {
    }
}

impl FromSpecImpl<ErrorKind> for ExitCode {
    open spec fn obeys_from_spec() -> bool {
        true
    }

    open spec fn from_spec(kind: ErrorKind) -> ExitCode {
        ExitCode::of_error_kind(kind)
    }
}

impl From<ErrorKind> for ExitCode {
    /// Converts an [`ErrorKind`] into an `ExitCode`.
    ///
    /// The conversion never fails: a kind that the table does not name
    /// gives [`ExitCode::IoErr`].
    #[inline]
    fn from(kind: ErrorKind) -> (code: ExitCode)
        ensures
            code == ExitCode::of_error_kind(kind),
    {
        match kind {
            ErrorKind::NotFound => ExitCode::NoInput,
            ErrorKind::PermissionDenied => ExitCode::NoPerm,
            ErrorKind::ConnectionRefused
            | ErrorKind::HostUnreachable
            | ErrorKind::NetworkUnreachable
            | ErrorKind::OutOfMemory => ExitCode::OsErr,
            ErrorKind::ConnectionReset
            | ErrorKind::ConnectionAborted
            | ErrorKind::NotConnected
            | ErrorKind::BrokenPipe
            | ErrorKind::TimedOut
            | ErrorKind::Interrupted => ExitCode::TempFail,
            ErrorKind::AddrInUse
            | ErrorKind::AddrNotAvailable
            | ErrorKind::NetworkDown => ExitCode::Unavailable,
            ErrorKind::AlreadyExists | ErrorKind::ReadOnlyFilesystem => ExitCode::CantCreat,
            ErrorKind::WouldBlock | ErrorKind::Unsupported => ExitCode::Protocol,
            ErrorKind::InvalidInput | ErrorKind::InvalidData => ExitCode::DataErr,
            ErrorKind::WriteZero | ErrorKind::UnexpectedEof => ExitCode::Software,
            _ => ExitCode::IoErr,
        }
    }
}

impl FromSpecImpl<Error> for ExitCode {
    open spec fn obeys_from_spec() -> bool {
        true
    }

    open spec fn from_spec(error: Error) -> ExitCode {
        ExitCode::of_error_kind(kind_of(error))
    }
}

impl From<Error> for ExitCode {
    /// Converts an [`Error`] into an `ExitCode`: the error's message and
    /// context are dropped, and its kind goes through the table of
    /// [`ExitCode::of_error_kind`].
    #[inline]
    fn from(error: Error) -> (code: ExitCode)
        ensures
            code == ExitCode::of_error_kind(kind_of(error)),
    {
        ExitCode::from(error.kind())
    }
}

} // verus!

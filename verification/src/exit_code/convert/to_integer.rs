//! From an exit code to its number, in every integer type.
//!
//! The table stands once, in `u8::from`; the other eleven types widen what
//! it returns. Each conversion returns exactly [`ExitCode::value`], and so
//! never fails: every number of an exit code fits in every integer type.

use vstd::prelude::*;
use vstd::std_specs::convert::FromSpecImpl;

use crate::exit_code::ExitCode;

verus! {

impl FromSpecImpl<ExitCode> for u8 {
    open spec fn obeys_from_spec() -> bool {
        true
    }

    open spec fn from_spec(code: ExitCode) -> u8 {
        code.value() as u8
    }
}

impl From<ExitCode> for u8 {
    /// Converts an `ExitCode` into the number that stands for it.
    ///
    /// The resulting value is `0` or in `64..=78`.
    #[inline]
    fn from(code: ExitCode) -> (n: u8)
        ensures
            n == code.value(),
            n == 0 || 64 <= n <= 78,
    {
        match code {
            ExitCode::Success => 0,
            ExitCode::Usage => 64,
            ExitCode::DataErr => 65,
            ExitCode::NoInput => 66,
            ExitCode::NoUser => 67,
            ExitCode::NoHost => 68,
            ExitCode::Unavailable => 69,
            ExitCode::Software => 70,
            ExitCode::OsErr => 71,
            ExitCode::OsFile => 72,
            ExitCode::CantCreat => 73,
            ExitCode::IoErr => 74,
            ExitCode::TempFail => 75,
            ExitCode::Protocol => 76,
            ExitCode::NoPerm => 77,
            ExitCode::Config => 78,
        }
    }
}

impl FromSpecImpl<ExitCode> for i8 {
    open spec fn obeys_from_spec() -> bool {
        true
    }

    open spec fn from_spec(code: ExitCode) -> i8 {
        code.value() as i8
    }
}

impl From<ExitCode> for i8 {
    /// Converts an `ExitCode` into the number that stands for it.
    ///
    /// The resulting value is `0` or in `64..=78`.
    #[inline]
    fn from(code: ExitCode) -> (n: i8)
        ensures
            n == code.value(),
            n == 0 || 64 <= n <= 78,
    {
        u8::from(code) as i8
    }
}

impl FromSpecImpl<ExitCode> for i16 {
    open spec fn obeys_from_spec() -> bool {
        true
    }

    open spec fn from_spec(code: ExitCode) -> i16 {
        code.value() as i16
    }
}

impl From<ExitCode> for i16 {
    /// Converts an `ExitCode` into the number that stands for it.
    ///
    /// The resulting value is `0` or in `64..=78`.
    #[inline]
    fn from(code: ExitCode) -> (n: i16)
        ensures
            n == code.value(),
            n == 0 || 64 <= n <= 78,
    {
        u8::from(code) as i16
    }
}

impl FromSpecImpl<ExitCode> for i32 {
    open spec fn obeys_from_spec() -> bool {
        true
    }

    open spec fn from_spec(code: ExitCode) -> i32 {
        code.value() as i32
    }
}

impl From<ExitCode> for i32 {
    /// Converts an `ExitCode` into the number that stands for it.
    ///
    /// The resulting value is `0` or in `64..=78`.
    #[inline]
    fn from(code: ExitCode) -> (n: i32)
        ensures
            n == code.value(),
            n == 0 || 64 <= n <= 78,
    {
        u8::from(code) as i32
    }
}

impl FromSpecImpl<ExitCode> for i64 {
    open spec fn obeys_from_spec() -> bool {
        true
    }

    open spec fn from_spec(code: ExitCode) -> i64 {
        code.value() as i64
    }
}

impl From<ExitCode> for i64 {
    /// Converts an `ExitCode` into the number that stands for it.
    ///
    /// The resulting value is `0` or in `64..=78`.
    #[inline]
    fn from(code: ExitCode) -> (n: i64)
        ensures
            n == code.value(),
            n == 0 || 64 <= n <= 78,
    {
        u8::from(code) as i64
    }
}

impl FromSpecImpl<ExitCode> for i128 {
    open spec fn obeys_from_spec() -> bool {
        true
    }

    open spec fn from_spec(code: ExitCode) -> i128 {
        code.value() as i128
    }
}

impl From<ExitCode> for i128 {
    /// Converts an `ExitCode` into the number that stands for it.
    ///
    /// The resulting value is `0` or in `64..=78`.
    #[inline]
    fn from(code: ExitCode) -> (n: i128)
        ensures
            n == code.value(),
            n == 0 || 64 <= n <= 78,
    {
        u8::from(code) as i128
    }
}

impl FromSpecImpl<ExitCode> for isize {
    open spec fn obeys_from_spec() -> bool {
        true
    }

    open spec fn from_spec(code: ExitCode) -> isize {
        code.value() as isize
    }
}

impl From<ExitCode> for isize {
    /// Converts an `ExitCode` into the number that stands for it.
    ///
    /// The resulting value is `0` or in `64..=78`.
    #[inline]
    fn from(code: ExitCode) -> (n: isize)
        ensures
            n == code.value(),
            n == 0 || 64 <= n <= 78,
    {
        u8::from(code) as isize
    }
}

impl FromSpecImpl<ExitCode> for u16 {
    open spec fn obeys_from_spec() -> bool {
        true
    }

    open spec fn from_spec(code: ExitCode) -> u16 {
        code.value() as u16
    }
}

impl From<ExitCode> for u16 {
    /// Converts an `ExitCode` into the number that stands for it.
    ///
    /// The resulting value is `0` or in `64..=78`.
    #[inline]
    fn from(code: ExitCode) -> (n: u16)
        ensures
            n == code.value(),
            n == 0 || 64 <= n <= 78,
    {
        u8::from(code) as u16
    }
}

impl FromSpecImpl<ExitCode> for u32 {
    open spec fn obeys_from_spec() -> bool {
        true
    }

    open spec fn from_spec(code: ExitCode) -> u32 {
        code.value() as u32
    }
}

impl From<ExitCode> for u32 {
    /// Converts an `ExitCode` into the number that stands for it.
    ///
    /// The resulting value is `0` or in `64..=78`.
    #[inline]
    fn from(code: ExitCode) -> (n: u32)
        ensures
            n == code.value(),
            n == 0 || 64 <= n <= 78,
    {
        u8::from(code) as u32
    }
}

impl FromSpecImpl<ExitCode> for u64 {
    open spec fn obeys_from_spec() -> bool {
        true
    }

    open spec fn from_spec(code: ExitCode) -> u64 {
        code.value() as u64
    }
}

impl From<ExitCode> for u64 {
    /// Converts an `ExitCode` into the number that stands for it.
    ///
    /// The resulting value is `0` or in `64..=78`.
    #[inline]
    fn from(code: ExitCode) -> (n: u64)
        ensures
            n == code.value(),
            n == 0 || 64 <= n <= 78,
    {
        u8::from(code) as u64
    }
}

impl FromSpecImpl<ExitCode> for u128 {
    open spec fn obeys_from_spec() -> bool {
        true
    }

    open spec fn from_spec(code: ExitCode) -> u128 {
        code.value() as u128
    }
}

impl From<ExitCode> for u128 {
    /// Converts an `ExitCode` into the number that stands for it.
    ///
    /// The resulting value is `0` or in `64..=78`.
    #[inline]
    fn from(code: ExitCode) -> (n: u128)
        ensures
            n == code.value(),
            n == 0 || 64 <= n <= 78,
    {
        u8::from(code) as u128
    }
}

impl FromSpecImpl<ExitCode> for usize {
    open spec fn obeys_from_spec() -> bool {
        true
    }

    open spec fn from_spec(code: ExitCode) -> usize {
        code.value() as usize
    }
}

impl From<ExitCode> for usize {
    /// Converts an `ExitCode` into the number that stands for it.
    ///
    /// The resulting value is `0` or in `64..=78`.
    #[inline]
    fn from(code: ExitCode) -> (n: usize)
        ensures
            n == code.value(),
            n == 0 || 64 <= n <= 78,
    {
        u8::from(code) as usize
    }
}

} // verus!

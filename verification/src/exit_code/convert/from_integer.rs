//! From an integer of any type to the exit code that it stands for.
//!
//! The table stands once, in the conversion from `u8`; the other eleven
//! types reject what does not fit in a `u8` and look the rest up there. Each
//! conversion returns exactly [`ExitCode::checked_from_value`] of its
//! argument's value: nothing is truncated, and nothing is clamped.

use vstd::prelude::*;
use vstd::std_specs::convert::TryFromSpecImpl;

use crate::error::ExitCodeRangeError;
use crate::exit_code::ExitCode;

verus! {

impl ExitCode {
    /// What a conversion from an integer whose value is `n` returns: the
    /// exit code that `n` stands for, or the range error where it stands
    /// for none.
    pub open spec fn checked_from_value(n: int) -> Result<ExitCode, ExitCodeRangeError> {
        match ExitCode::from_value(n) {
            Some(code) => Ok(code),
            None => Err(ExitCodeRangeError),
        }
    }
}

impl TryFromSpecImpl<u8> for ExitCode {
    open spec fn obeys_try_from_spec() -> bool {
        true
    }

    open spec fn try_from_spec(value: u8) -> Result<ExitCode, ExitCodeRangeError> {
        ExitCode::checked_from_value(value as int)
    }
}

impl TryFrom<u8> for ExitCode {
    type Error = ExitCodeRangeError;

    /// Converts an integer value into an `ExitCode`.
    ///
    /// # Errors
    ///
    /// Returns [`Err`] if `value` is not `0` or `64..=78`.
    #[inline]
    fn try_from(value: u8) -> (r: Result<ExitCode, ExitCodeRangeError>)
        ensures
            r == ExitCode::checked_from_value(value as int),
            r is Ok <==> value == 0 || 64 <= value <= 78,
    {
        match value {
            0 => Ok(ExitCode::Success),
            64 => Ok(ExitCode::Usage),
            65 => Ok(ExitCode::DataErr),
            66 => Ok(ExitCode::NoInput),
            67 => Ok(ExitCode::NoUser),
            68 => Ok(ExitCode::NoHost),
            69 => Ok(ExitCode::Unavailable),
            70 => Ok(ExitCode::Software),
            71 => Ok(ExitCode::OsErr),
            72 => Ok(ExitCode::OsFile),
            73 => Ok(ExitCode::CantCreat),
            74 => Ok(ExitCode::IoErr),
            75 => Ok(ExitCode::TempFail),
            76 => Ok(ExitCode::Protocol),
            77 => Ok(ExitCode::NoPerm),
            78 => Ok(ExitCode::Config),
            _ => Err(ExitCodeRangeError),
        }
    }
}

impl TryFromSpecImpl<i8> for ExitCode {
    open spec fn obeys_try_from_spec() -> bool {
        true
    }

    open spec fn try_from_spec(value: i8) -> Result<ExitCode, ExitCodeRangeError> {
        ExitCode::checked_from_value(value as int)
    }
}

impl TryFrom<i8> for ExitCode {
    type Error = ExitCodeRangeError;

    /// Converts an integer value into an `ExitCode`.
    ///
    /// # Errors
    ///
    /// Returns [`Err`] if `value` is not `0` or `64..=78`.
    #[inline]
    fn try_from(value: i8) -> (r: Result<ExitCode, ExitCodeRangeError>)
        ensures
            r == ExitCode::checked_from_value(value as int),
            r is Ok <==> value == 0 || 64 <= value <= 78,
    {
        if 0 <= value {
            ExitCode::try_from(value as u8)
        } else {
            Err(ExitCodeRangeError)
        }
    }
}

impl TryFromSpecImpl<i16> for ExitCode {
    open spec fn obeys_try_from_spec() -> bool {
        true
    }

    open spec fn try_from_spec(value: i16) -> Result<ExitCode, ExitCodeRangeError> {
        ExitCode::checked_from_value(value as int)
    }
}

impl TryFrom<i16> for ExitCode {
    type Error = ExitCodeRangeError;

    /// Converts an integer value into an `ExitCode`.
    ///
    /// # Errors
    ///
    /// Returns [`Err`] if `value` is not `0` or `64..=78`.
    #[inline]
    fn try_from(value: i16) -> (r: Result<ExitCode, ExitCodeRangeError>)
        ensures
            r == ExitCode::checked_from_value(value as int),
            r is Ok <==> value == 0 || 64 <= value <= 78,
    {
        if 0 <= value && value <= 255 {
            ExitCode::try_from(value as u8)
        } else {
            Err(ExitCodeRangeError)
        }
    }
}

impl TryFromSpecImpl<i32> for ExitCode {
    open spec fn obeys_try_from_spec() -> bool {
        true
    }

    open spec fn try_from_spec(value: i32) -> Result<ExitCode, ExitCodeRangeError> {
        ExitCode::checked_from_value(value as int)
    }
}

impl TryFrom<i32> for ExitCode {
    type Error = ExitCodeRangeError;

    /// Converts an integer value into an `ExitCode`.
    ///
    /// # Errors
    ///
    /// Returns [`Err`] if `value` is not `0` or `64..=78`.
    #[inline]
    fn try_from(value: i32) -> (r: Result<ExitCode, ExitCodeRangeError>)
        ensures
            r == ExitCode::checked_from_value(value as int),
            r is Ok <==> value == 0 || 64 <= value <= 78,
    {
        if 0 <= value && value <= 255 {
            ExitCode::try_from(value as u8)
        } else {
            Err(ExitCodeRangeError)
        }
    }
}

impl TryFromSpecImpl<i64> for ExitCode {
    open spec fn obeys_try_from_spec() -> bool {
        true
    }

    open spec fn try_from_spec(value: i64) -> Result<ExitCode, ExitCodeRangeError> {
        ExitCode::checked_from_value(value as int)
    }
}

impl TryFrom<i64> for ExitCode {
    type Error = ExitCodeRangeError;

    /// Converts an integer value into an `ExitCode`.
    ///
    /// # Errors
    ///
    /// Returns [`Err`] if `value` is not `0` or `64..=78`.
    #[inline]
    fn try_from(value: i64) -> (r: Result<ExitCode, ExitCodeRangeError>)
        ensures
            r == ExitCode::checked_from_value(value as int),
            r is Ok <==> value == 0 || 64 <= value <= 78,
    {
        if 0 <= value && value <= 255 {
            ExitCode::try_from(value as u8)
        } else {
            Err(ExitCodeRangeError)
        }
    }
}

impl TryFromSpecImpl<i128> for ExitCode {
    open spec fn obeys_try_from_spec() -> bool {
        true
    }

    open spec fn try_from_spec(value: i128) -> Result<ExitCode, ExitCodeRangeError> {
        ExitCode::checked_from_value(value as int)
    }
}

impl TryFrom<i128> for ExitCode {
    type Error = ExitCodeRangeError;

    /// Converts an integer value into an `ExitCode`.
    ///
    /// # Errors
    ///
    /// Returns [`Err`] if `value` is not `0` or `64..=78`.
    #[inline]
    fn try_from(value: i128) -> (r: Result<ExitCode, ExitCodeRangeError>)
        ensures
            r == ExitCode::checked_from_value(value as int),
            r is Ok <==> value == 0 || 64 <= value <= 78,
    {
        if 0 <= value && value <= 255 {
            ExitCode::try_from(value as u8)
        } else {
            Err(ExitCodeRangeError)
        }
    }
}

impl TryFromSpecImpl<isize> for ExitCode {
    open spec fn obeys_try_from_spec() -> bool {
        true
    }

    open spec fn try_from_spec(value: isize) -> Result<ExitCode, ExitCodeRangeError> {
        ExitCode::checked_from_value(value as int)
    }
}

impl TryFrom<isize> for ExitCode {
    type Error = ExitCodeRangeError;

    /// Converts an integer value into an `ExitCode`.
    ///
    /// # Errors
    ///
    /// Returns [`Err`] if `value` is not `0` or `64..=78`.
    #[inline]
    fn try_from(value: isize) -> (r: Result<ExitCode, ExitCodeRangeError>)
        ensures
            r == ExitCode::checked_from_value(value as int),
            r is Ok <==> value == 0 || 64 <= value <= 78,
    {
        if 0 <= value && value <= 255 {
            ExitCode::try_from(value as u8)
        } else {
            Err(ExitCodeRangeError)
        }
    }
}

impl TryFromSpecImpl<u16> for ExitCode {
    open spec fn obeys_try_from_spec() -> bool {
        true
    }

    open spec fn try_from_spec(value: u16) -> Result<ExitCode, ExitCodeRangeError> {
        ExitCode::checked_from_value(value as int)
    }
}

impl TryFrom<u16> for ExitCode {
    type Error = ExitCodeRangeError;

    /// Converts an integer value into an `ExitCode`.
    ///
    /// # Errors
    ///
    /// Returns [`Err`] if `value` is not `0` or `64..=78`.
    #[inline]
    fn try_from(value: u16) -> (r: Result<ExitCode, ExitCodeRangeError>)
        ensures
            r == ExitCode::checked_from_value(value as int),
            r is Ok <==> value == 0 || 64 <= value <= 78,
    {
        if value <= 255 {
            ExitCode::try_from(value as u8)
        } else {
            Err(ExitCodeRangeError)
        }
    }
}

impl TryFromSpecImpl<u32> for ExitCode {
    open spec fn obeys_try_from_spec() -> bool {
        true
    }

    open spec fn try_from_spec(value: u32) -> Result<ExitCode, ExitCodeRangeError> {
        ExitCode::checked_from_value(value as int)
    }
}

impl TryFrom<u32> for ExitCode {
    type Error = ExitCodeRangeError;

    /// Converts an integer value into an `ExitCode`.
    ///
    /// # Errors
    ///
    /// Returns [`Err`] if `value` is not `0` or `64..=78`.
    #[inline]
    fn try_from(value: u32) -> (r: Result<ExitCode, ExitCodeRangeError>)
        ensures
            r == ExitCode::checked_from_value(value as int),
            r is Ok <==> value == 0 || 64 <= value <= 78,
    {
        if value <= 255 {
            ExitCode::try_from(value as u8)
        } else {
            Err(ExitCodeRangeError)
        }
    }
}

impl TryFromSpecImpl<u64> for ExitCode {
    open spec fn obeys_try_from_spec() -> bool {
        true
    }

    open spec fn try_from_spec(value: u64) -> Result<ExitCode, ExitCodeRangeError> {
        ExitCode::checked_from_value(value as int)
    }
}

impl TryFrom<u64> for ExitCode {
    type Error = ExitCodeRangeError;

    /// Converts an integer value into an `ExitCode`.
    ///
    /// # Errors
    ///
    /// Returns [`Err`] if `value` is not `0` or `64..=78`.
    #[inline]
    fn try_from(value: u64) -> (r: Result<ExitCode, ExitCodeRangeError>)
        ensures
            r == ExitCode::checked_from_value(value as int),
            r is Ok <==> value == 0 || 64 <= value <= 78,
    {
        if value <= 255 {
            ExitCode::try_from(value as u8)
        } else {
            Err(ExitCodeRangeError)
        }
    }
}

impl TryFromSpecImpl<u128> for ExitCode {
    open spec fn obeys_try_from_spec() -> bool {
        true
    }

    open spec fn try_from_spec(value: u128) -> Result<ExitCode, ExitCodeRangeError> {
        ExitCode::checked_from_value(value as int)
    }
}

impl TryFrom<u128> for ExitCode {
    type Error = ExitCodeRangeError;

    /// Converts an integer value into an `ExitCode`.
    ///
    /// # Errors
    ///
    /// Returns [`Err`] if `value` is not `0` or `64..=78`.
    #[inline]
    fn try_from(value: u128) -> (r: Result<ExitCode, ExitCodeRangeError>)
        ensures
            r == ExitCode::checked_from_value(value as int),
            r is Ok <==> value == 0 || 64 <= value <= 78,
    {
        if value <= 255 {
            ExitCode::try_from(value as u8)
        } else {
            Err(ExitCodeRangeError)
        }
    }
}

impl TryFromSpecImpl<usize> for ExitCode {
    open spec fn obeys_try_from_spec() -> bool {
        true
    }

    open spec fn try_from_spec(value: usize) -> Result<ExitCode, ExitCodeRangeError> {
        ExitCode::checked_from_value(value as int)
    }
}

impl TryFrom<usize> for ExitCode {
    type Error = ExitCodeRangeError;

    /// Converts an integer value into an `ExitCode`.
    ///
    /// # Errors
    ///
    /// Returns [`Err`] if `value` is not `0` or `64..=78`.
    #[inline]
    fn try_from(value: usize) -> (r: Result<ExitCode, ExitCodeRangeError>)
        ensures
            r == ExitCode::checked_from_value(value as int),
            r is Ok <==> value == 0 || 64 <= value <= 78,
    {
        if value <= 255 {
            ExitCode::try_from(value as u8)
        } else {
            Err(ExitCodeRangeError)
        }
    }
}

} // verus!

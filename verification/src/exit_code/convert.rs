//! Conversions between [`ExitCode`] and other types, and what holds between
//! the two directions of the conversion to and from integers.

use vstd::prelude::*;
use vstd::std_specs::convert::{FromSpec, TryFromSpec};

use crate::error::ExitCodeRangeError;
use crate::exit_code::ExitCode;

mod from_integer;
mod io;
mod status;
mod to_integer;

verus! {

impl ExitCode {
    /// The number of an exit code stands for that exit code again, in every
    /// integer type: converting an exit code to an integer and that integer
    /// back gives `Ok` of the exit code that one started from.
    pub proof fn lemma_integer_round_trip(code: ExitCode)
        ensures
            ExitCode::checked_from_value(code.value()) == Ok::<ExitCode, ExitCodeRangeError>(code),
            <ExitCode as TryFromSpec<i8>>::try_from_spec(
                <i8 as FromSpec<ExitCode>>::from_spec(code),
            ) == Ok::<ExitCode, ExitCodeRangeError>(code),
            <ExitCode as TryFromSpec<i16>>::try_from_spec(
                <i16 as FromSpec<ExitCode>>::from_spec(code),
            ) == Ok::<ExitCode, ExitCodeRangeError>(code),
            <ExitCode as TryFromSpec<i32>>::try_from_spec(
                <i32 as FromSpec<ExitCode>>::from_spec(code),
            ) == Ok::<ExitCode, ExitCodeRangeError>(code),
            <ExitCode as TryFromSpec<i64>>::try_from_spec(
                <i64 as FromSpec<ExitCode>>::from_spec(code),
            ) == Ok::<ExitCode, ExitCodeRangeError>(code),
            <ExitCode as TryFromSpec<i128>>::try_from_spec(
                <i128 as FromSpec<ExitCode>>::from_spec(code),
            ) == Ok::<ExitCode, ExitCodeRangeError>(code),
            <ExitCode as TryFromSpec<isize>>::try_from_spec(
                <isize as FromSpec<ExitCode>>::from_spec(code),
            ) == Ok::<ExitCode, ExitCodeRangeError>(code),
            <ExitCode as TryFromSpec<u8>>::try_from_spec(
                <u8 as FromSpec<ExitCode>>::from_spec(code),
            ) == Ok::<ExitCode, ExitCodeRangeError>(code),
            <ExitCode as TryFromSpec<u16>>::try_from_spec(
                <u16 as FromSpec<ExitCode>>::from_spec(code),
            ) == Ok::<ExitCode, ExitCodeRangeError>(code),
            <ExitCode as TryFromSpec<u32>>::try_from_spec(
                <u32 as FromSpec<ExitCode>>::from_spec(code),
            ) == Ok::<ExitCode, ExitCodeRangeError>(code),
            <ExitCode as TryFromSpec<u64>>::try_from_spec(
                <u64 as FromSpec<ExitCode>>::from_spec(code),
            ) == Ok::<ExitCode, ExitCodeRangeError>(code),
            <ExitCode as TryFromSpec<u128>>::try_from_spec(
                <u128 as FromSpec<ExitCode>>::from_spec(code),
            ) == Ok::<ExitCode, ExitCodeRangeError>(code),
            <ExitCode as TryFromSpec<usize>>::try_from_spec(
                <usize as FromSpec<ExitCode>>::from_spec(code),
            ) == Ok::<ExitCode, ExitCodeRangeError>(code),
    {
    }

    /// An integer that is neither 0 nor in 64..=78 stands for no exit code.
    /// Whether it is negative, lies in the gap from 1 to 63 or is above 78,
    /// the conversion from it fails with the range error, in every integer
    /// type that holds it.
    pub proof fn lemma_out_of_range_is_rejected(n: int)
        requires
            n != 0,
            !(64 <= n <= 78),
        ensures
            ExitCode::checked_from_value(n) == Err::<ExitCode, ExitCodeRangeError>(
                ExitCodeRangeError,
            ),
            i8::MIN <= n <= i8::MAX ==> <ExitCode as TryFromSpec<i8>>::try_from_spec(n as i8)
                == Err::<ExitCode, ExitCodeRangeError>(ExitCodeRangeError),
            i16::MIN <= n <= i16::MAX ==> <ExitCode as TryFromSpec<i16>>::try_from_spec(n as i16)
                == Err::<ExitCode, ExitCodeRangeError>(ExitCodeRangeError),
            i32::MIN <= n <= i32::MAX ==> <ExitCode as TryFromSpec<i32>>::try_from_spec(n as i32)
                == Err::<ExitCode, ExitCodeRangeError>(ExitCodeRangeError),
            i64::MIN <= n <= i64::MAX ==> <ExitCode as TryFromSpec<i64>>::try_from_spec(n as i64)
                == Err::<ExitCode, ExitCodeRangeError>(ExitCodeRangeError),
            i128::MIN <= n <= i128::MAX ==> <ExitCode as TryFromSpec<i128>>::try_from_spec(
                n as i128,
            ) == Err::<ExitCode, ExitCodeRangeError>(ExitCodeRangeError),
            isize::MIN <= n <= isize::MAX ==> <ExitCode as TryFromSpec<isize>>::try_from_spec(
                n as isize,
            ) == Err::<ExitCode, ExitCodeRangeError>(ExitCodeRangeError),
            0 <= n <= u8::MAX ==> <ExitCode as TryFromSpec<u8>>::try_from_spec(n as u8)
                == Err::<ExitCode, ExitCodeRangeError>(ExitCodeRangeError),
            0 <= n <= u16::MAX ==> <ExitCode as TryFromSpec<u16>>::try_from_spec(n as u16)
                == Err::<ExitCode, ExitCodeRangeError>(ExitCodeRangeError),
            0 <= n <= u32::MAX ==> <ExitCode as TryFromSpec<u32>>::try_from_spec(n as u32)
                == Err::<ExitCode, ExitCodeRangeError>(ExitCodeRangeError),
            0 <= n <= u64::MAX ==> <ExitCode as TryFromSpec<u64>>::try_from_spec(n as u64)
                == Err::<ExitCode, ExitCodeRangeError>(ExitCodeRangeError),
            0 <= n <= u128::MAX ==> <ExitCode as TryFromSpec<u128>>::try_from_spec(n as u128)
                == Err::<ExitCode, ExitCodeRangeError>(ExitCodeRangeError),
            0 <= n <= usize::MAX ==> <ExitCode as TryFromSpec<usize>>::try_from_spec(n as usize)
                == Err::<ExitCode, ExitCodeRangeError>(ExitCodeRangeError),
    {
    }
}

} // verus!

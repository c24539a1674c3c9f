use vstd::prelude::*;
use crate::acquire::{get_input, forwards_failure, numeric_verdict, step_meets, ReadEvent, Step};
use crate::numeric::Numeric;

verus! {

/// One attempt to read a number of any primitive integer type.
pub fn get_number<T: Numeric>(retry: bool, read: ReadEvent) -> (r: Step<T, std::num::ParseIntError>)
    ensures
        step_meets(r, numeric_verdict::<T>(retry, read)),
        forwards_failure(read, r),
{
    get_input(retry, read)
}

/// One attempt to read a signed 8-bit integer (-128 to 127).
pub fn get_i8(retry: bool, read: ReadEvent) -> (r: Step<i8, std::num::ParseIntError>)
    ensures
        step_meets(r, numeric_verdict::<i8>(retry, read)),
        forwards_failure(read, r),
{
    get_input(retry, read)
}

/// One attempt to read an unsigned 8-bit integer (0 to 255).
pub fn get_u8(retry: bool, read: ReadEvent) -> (r: Step<u8, std::num::ParseIntError>)
    ensures
        step_meets(r, numeric_verdict::<u8>(retry, read)),
        forwards_failure(read, r),
{
    get_input(retry, read)
}

/// One attempt to read a signed 16-bit integer (-32,768 to 32,767).
pub fn get_i16(retry: bool, read: ReadEvent) -> (r: Step<i16, std::num::ParseIntError>)
    ensures
        step_meets(r, numeric_verdict::<i16>(retry, read)),
        forwards_failure(read, r),
{
    get_input(retry, read)
}

/// One attempt to read an unsigned 16-bit integer (0 to 65,535).
pub fn get_u16(retry: bool, read: ReadEvent) -> (r: Step<u16, std::num::ParseIntError>)
    ensures
        step_meets(r, numeric_verdict::<u16>(retry, read)),
        forwards_failure(read, r),
{
    get_input(retry, read)
}

/// One attempt to read a signed 32-bit integer.
pub fn get_i32(retry: bool, read: ReadEvent) -> (r: Step<i32, std::num::ParseIntError>)
    ensures
        step_meets(r, numeric_verdict::<i32>(retry, read)),
        forwards_failure(read, r),
{
    get_input(retry, read)
}

/// One attempt to read an unsigned 32-bit integer.
pub fn get_u32(retry: bool, read: ReadEvent) -> (r: Step<u32, std::num::ParseIntError>)
    ensures
        step_meets(r, numeric_verdict::<u32>(retry, read)),
        forwards_failure(read, r),
{
    get_input(retry, read)
}

/// One attempt to read a signed 64-bit integer.
pub fn get_i64(retry: bool, read: ReadEvent) -> (r: Step<i64, std::num::ParseIntError>)
    ensures
        step_meets(r, numeric_verdict::<i64>(retry, read)),
        forwards_failure(read, r),
{
    get_input(retry, read)
}

/// One attempt to read an unsigned 64-bit integer.
pub fn get_u64(retry: bool, read: ReadEvent) -> (r: Step<u64, std::num::ParseIntError>)
    ensures
        step_meets(r, numeric_verdict::<u64>(retry, read)),
        forwards_failure(read, r),
{
    get_input(retry, read)
}

/// One attempt to read a signed 128-bit integer.
pub fn get_i128(retry: bool, read: ReadEvent) -> (r: Step<i128, std::num::ParseIntError>)
    ensures
        step_meets(r, numeric_verdict::<i128>(retry, read)),
        forwards_failure(read, r),
{
    get_input(retry, read)
}

/// One attempt to read an unsigned 128-bit integer.
pub fn get_u128(retry: bool, read: ReadEvent) -> (r: Step<u128, std::num::ParseIntError>)
    ensures
        step_meets(r, numeric_verdict::<u128>(retry, read)),
        forwards_failure(read, r),
{
    get_input(retry, read)
}

/// One attempt to read a pointer-sized signed integer.
pub fn get_isize(retry: bool, read: ReadEvent) -> (r: Step<isize, std::num::ParseIntError>)
    ensures
        step_meets(r, numeric_verdict::<isize>(retry, read)),
        forwards_failure(read, r),
{
    get_input(retry, read)
}

/// One attempt to read a pointer-sized unsigned integer.
pub fn get_usize(retry: bool, read: ReadEvent) -> (r: Step<usize, std::num::ParseIntError>)
    ensures
        step_meets(r, numeric_verdict::<usize>(retry, read)),
        forwards_failure(read, r),
{
    get_input(retry, read)
}

} // verus!

//! Functions that hand their argument back unchanged, one for each integer
//! type the foreign function interface passes, against which calls from
//! the image are checked.
use vstd::prelude::*;

verus! {

pub fn pass_and_return_bool(value: bool) -> (result: bool)
    ensures
        result == value,
{
    value
}

pub fn pass_and_return_i8(value: i8) -> (result: i8)
    ensures
        result == value,
{
    value
}

pub fn pass_and_return_u8(value: u8) -> (result: u8)
    ensures
        result == value,
{
    value
}

pub fn pass_and_return_i16(value: i16) -> (result: i16)
    ensures
        result == value,
{
    value
}

pub fn pass_and_return_u16(value: u16) -> (result: u16)
    ensures
        result == value,
{
    value
}

pub fn pass_and_return_i32(value: i32) -> (result: i32)
    ensures
        result == value,
{
    value
}

pub fn pass_and_return_u32(value: u32) -> (result: u32)
    ensures
        result == value,
{
    value
}

} // verus!

//! Object pointers, field indices and stack offsets as the interpreter sees
//! them: tagged machine words.
use vstd::prelude::*;

verus! {

/// The bits of an object pointer that tag an immediate value.
pub const TAG_MASK: i64 = 7;

/// A machine word that is either a tagged immediate value or the address of
/// an object.
#[derive(PartialEq, Eq, Structural, Clone, Copy, Debug)]
pub struct ObjectPointer(pub i64);

impl ObjectPointer {
    /// A pointer holding the given machine word.
    pub fn from_native_c(value: i64) -> (result: Self)
        ensures
            result.0 == value,
    {
        ObjectPointer(value)
    }

    /// The machine word of this pointer.
    pub fn into_native(self) -> (result: i64)
        ensures
            result == self.0,
    {
        self.0
    }

    /// The machine word of this pointer.
    pub fn as_i64(&self) -> (result: i64)
        ensures
            result == self.0,
    {
        self.0
    }

    /// The pointer moved by `offset` bytes.
    pub fn offset_by(&self, offset: i64) -> (result: Self)
        requires
            i64::MIN <= self.0 + offset <= i64::MAX,
        ensures
            result.0 == self.0 + offset,
    {
        ObjectPointer(self.0 + offset)
    }

    /// The pointer is tagged: it holds an immediate value, not an object.
    pub open spec fn immediate(&self) -> bool {
        (self.0 & TAG_MASK) != 0
    }

    /// Whether the pointer holds an immediate value.
    pub fn is_immediate(&self) -> (result: bool)
        ensures
            result == self.immediate(),
    {
        (self.0 & TAG_MASK) != 0
    }
}

/// The index of a field of an object.
#[derive(Clone, Copy, Debug)]
pub struct ObjectFieldIndex(pub i64);

impl ObjectFieldIndex {
    /// The field index for `index`, as a machine word.
    pub fn new(index: usize) -> (result: Self)
        ensures
            result.0 == index as i64,
    {
        ObjectFieldIndex(index as i64)
    }
}

/// An offset from the top of the interpreter's stack.
#[derive(Clone, Copy, Debug)]
pub struct StackOffset(pub i64);

impl StackOffset {
    /// The stack offset for `offset`.
    pub fn new(offset: i32) -> (result: Self)
        ensures
            result.0 == offset as i64,
    {
        StackOffset(offset as i64)
    }
}

/// Converts a number to another integer type; the number must fit in it.
pub fn cast_integer<T: Copy, R: TryFrom<T>>(number: T) -> (result: R)
    where
        R::Error: std::fmt::Debug,
    requires
        <R as vstd::std_specs::convert::TryFromSpec<T>>::obeys_try_from_spec(),
        <R as vstd::std_specs::convert::TryFromSpec<T>>::try_from_spec(number) is Ok,
    ensures
        <R as vstd::std_specs::convert::TryFromSpec<T>>::try_from_spec(number) == Ok::<R, R::Error>(result),
{
    R::try_from(number).unwrap()
}

} // verus!

//! The decisions that the primitives take on what the interpreter answers:
//! which stack values are objects, which boolean object stands for a value,
//! identity hashes and identity, and when a store needs the remembered set.
use vstd::prelude::*;
use super::proxy::ObjectPointer;

verus! {

/// Access to the running interpreter's objects.
pub struct Smalltalk {}

/// The identity hash the image sees: the hash bits shifted past the eight
/// low bits.
pub open spec fn shifted_hash(hash: u32) -> u64 {
    (hash as u64 * 256) as u64
}

impl Smalltalk {
    pub fn new() -> (result: Self) {
        Smalltalk {}
    }

    /// The stack value when it is an object rather than an immediate value.
    pub fn stack_object_value(value: ObjectPointer) -> (result: Option<ObjectPointer>)
        ensures
            value.immediate() ==> result is None,
            !value.immediate() ==> result == Some(value),
    {
        if value.is_immediate() {
            None
        } else {
            Some(value)
        }
    }

    /// The stack value when it is an object; otherwise the null pointer,
    /// together with whether the primitive must fail.
    pub fn stack_object_value_unchecked(value: ObjectPointer) -> (result: (ObjectPointer, bool))
        ensures
            value.immediate() ==> result == (ObjectPointer(0), true),
            !value.immediate() ==> result == (value, false),
    {
        if value.is_immediate() {
            (ObjectPointer(0), true)
        } else {
            (value, false)
        }
    }

    /// The boolean object that stands for `value`.
    pub fn primitive_bool_object(
        value: bool,
        true_object: ObjectPointer,
        false_object: ObjectPointer,
    ) -> (result: ObjectPointer)
        ensures
            result == (if value { true_object } else { false_object }),
    {
        if value {
            true_object
        } else {
            false_object
        }
    }

    /// The identity hash of an object: the behavior hash when the object
    /// could be a class, its own hash bits otherwise, shifted by eight bits.
    pub fn identity_hash(could_be_class: bool, behavior_hash: u32, object_hash: u32) -> (result: u64)
        ensures
            result == shifted_hash(if could_be_class { behavior_hash } else { object_hash }),
            result == (if could_be_class { behavior_hash } else { object_hash }) as u64 * 256,
    {
        let hash = if could_be_class {
            behavior_hash
        } else {
            object_hash
        };
        (hash as u64) * 256
    }

    /// Whether two pointers denote the same object; unknown while the second
    /// one is forwarded.
    pub fn is_identical(
        first: ObjectPointer,
        second: ObjectPointer,
        second_is_forwarded: bool,
    ) -> (result: Option<bool>)
        ensures
            second_is_forwarded ==> result is None,
            !second_is_forwarded ==> result == Some(first == second),
    {
        if second_is_forwarded {
            return None;
        }
        Some(first == second)
    }

    /// Whether storing a value into an object must record the object as an
    /// old object that points to a young one.
    pub fn prepare_to_store(object_is_old: bool, value_is_young: bool) -> (result: bool)
        ensures
            result == (object_is_old && value_is_young),
    {
        object_is_old && value_is_young
    }
}

} // verus!

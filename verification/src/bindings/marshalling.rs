//! The decisions of argument and return value marshalling for foreign
//! calls: which reader an argument type calls for, which action a return
//! type calls for, and the range checks of narrow integer arguments.
use vstd::prelude::*;
use crate::text::{i64_to_decimal, u64_to_decimal, signed_decimal, decimal};

verus! {

/// The type tags of libffi's `ffi_type`.
#[derive(PartialEq, Eq, Structural, Clone, Copy, Debug)]
pub enum FfiType {
    Void,
    Int,
    Float,
    Double,
    LongDouble,
    UInt8,
    SInt8,
    UInt16,
    SInt16,
    UInt32,
    SInt32,
    UInt64,
    SInt64,
    Struct,
    Pointer,
    Complex,
    /// A tag that is none of the above, with its number.
    Other(u16),
}

/// How an argument of a foreign call is read from the arguments array.
#[derive(PartialEq, Eq, Structural, Clone, Copy, Debug)]
pub enum ArgumentKind {
    Float,
    Double,
    U8,
    I8,
    U16,
    I16,
    U32,
    I32,
    U64,
    Pointer,
}

/// The narrow integer types whose arguments are checked for range.
#[derive(PartialEq, Eq, Structural, Clone, Copy, Debug)]
pub enum NarrowInteger {
    U8,
    I8,
    U16,
    I16,
}

/// What is done with the result of a foreign call.
#[derive(PartialEq, Eq, Structural, Clone, Copy, Debug)]
pub enum ReturnAction {
    /// Pop the arguments and receiver, push the integer read as this type.
    PushInteger(NarrowInteger),
    /// Pop the arguments and receiver, push a positive 64-bit integer.
    PushPositive64,
    /// Pop the arguments and receiver, push an external address.
    PushExternalAddress,
    /// Pop this many stack items, which leaves the receiver.
    PopLeavingReceiver(usize),
}

/// Why marshalling refuses an argument or a return value.
#[derive(PartialEq, Eq, Structural, Clone, Copy, Debug)]
pub enum MarshallError {
    /// The argument type at this index is not supported.
    UnsupportedArgumentType(FfiType, usize),
    /// The return type is not supported.
    UnsupportedReturnType(FfiType),
    /// The integer argument at this index is above the type's maximum.
    AboveMaximum(NarrowInteger, i64, usize),
    /// The integer argument at this index is below the type's minimum.
    BelowMinimum(NarrowInteger, i64, usize),
    /// The pointer argument at this index is not an external address.
    NotAnExternalAddress(usize),
}

/// The values of a libffi integer type, its smallest and its largest;
/// `None` for the types that are no integers.
pub open spec fn ffi_integer_range(t: FfiType) -> Option<(int, int)> {
    match t {
        FfiType::UInt8 => Some((0, 0xff)),
        FfiType::SInt8 => Some((-0x80, 0x7f)),
        FfiType::UInt16 => Some((0, 0xffff)),
        FfiType::SInt16 => Some((-0x8000, 0x7fff)),
        FfiType::UInt32 => Some((0, 0xffff_ffff)),
        FfiType::SInt32 => Some((-0x8000_0000, 0x7fff_ffff)),
        FfiType::UInt64 => Some((0, 0xffff_ffff_ffff_ffff)),
        FfiType::SInt64 => Some((-0x8000_0000_0000_0000, 0x7fff_ffff_ffff_ffff)),
        _ => None,
    }
}

/// The values an argument reader reads, its smallest and its largest;
/// `None` for the readers of floats and pointers.
pub open spec fn argument_range(kind: ArgumentKind) -> Option<(int, int)> {
    match kind {
        ArgumentKind::U8 => Some((u8::MIN as int, u8::MAX as int)),
        ArgumentKind::I8 => Some((i8::MIN as int, i8::MAX as int)),
        ArgumentKind::U16 => Some((u16::MIN as int, u16::MAX as int)),
        ArgumentKind::I16 => Some((i16::MIN as int, i16::MAX as int)),
        ArgumentKind::U32 => Some((u32::MIN as int, u32::MAX as int)),
        ArgumentKind::I32 => Some((i32::MIN as int, i32::MAX as int)),
        ArgumentKind::U64 => Some((u64::MIN as int, u64::MAX as int)),
        _ => None,
    }
}

/// The values a return action pushes as an integer, its smallest and its
/// largest; `None` for the actions that push no integer.
pub open spec fn return_range(action: ReturnAction) -> Option<(int, int)> {
    match action {
        ReturnAction::PushInteger(n) => Some((min_of(n), max_of(n))),
        ReturnAction::PushPositive64 => Some((u64::MIN as int, u64::MAX as int)),
        _ => None,
    }
}

/// The reader for each argument type; the other types are refused.
pub open spec fn argument_kind_of(arg_type: FfiType) -> Option<ArgumentKind> {
    match arg_type {
        FfiType::Float => Some(ArgumentKind::Float),
        FfiType::Double => Some(ArgumentKind::Double),
        FfiType::UInt8 => Some(ArgumentKind::U8),
        FfiType::SInt8 => Some(ArgumentKind::I8),
        FfiType::UInt16 => Some(ArgumentKind::U16),
        FfiType::SInt16 => Some(ArgumentKind::I16),
        FfiType::UInt32 => Some(ArgumentKind::U32),
        FfiType::SInt32 => Some(ArgumentKind::I32),
        FfiType::UInt64 => Some(ArgumentKind::U64),
        FfiType::Pointer => Some(ArgumentKind::Pointer),
        _ => None,
    }
}

/// The reader for an argument of the given type at the given index.
pub fn argument_marshalling(arg_type: FfiType, index: usize) -> (result: Result<ArgumentKind, MarshallError>)
    ensures
        argument_kind_of(arg_type) matches Some(kind) ==> result == Ok::<ArgumentKind, MarshallError>(kind),
        argument_kind_of(arg_type) is None ==> result == Err::<ArgumentKind, MarshallError>(
            MarshallError::UnsupportedArgumentType(arg_type, index),
        ),
        result matches Ok(kind) ==> argument_range(kind) == ffi_integer_range(arg_type),
        arg_type == FfiType::Float ==> result == Ok::<ArgumentKind, MarshallError>(ArgumentKind::Float),
        arg_type == FfiType::Double ==> result == Ok::<ArgumentKind, MarshallError>(ArgumentKind::Double),
        arg_type == FfiType::Pointer ==> result == Ok::<ArgumentKind, MarshallError>(ArgumentKind::Pointer),
{
    match arg_type {
        FfiType::Float => Ok(ArgumentKind::Float),
        FfiType::Double => Ok(ArgumentKind::Double),
        FfiType::UInt8 => Ok(ArgumentKind::U8),
        FfiType::SInt8 => Ok(ArgumentKind::I8),
        FfiType::UInt16 => Ok(ArgumentKind::U16),
        FfiType::SInt16 => Ok(ArgumentKind::I16),
        FfiType::UInt32 => Ok(ArgumentKind::U32),
        FfiType::SInt32 => Ok(ArgumentKind::I32),
        FfiType::UInt64 => Ok(ArgumentKind::U64),
        FfiType::Pointer => Ok(ArgumentKind::Pointer),
        _ => Err(MarshallError::UnsupportedArgumentType(arg_type, index)),
    }
}

/// The action for each return type, given how many stack items the
/// arguments and the receiver take; the other types are refused.
pub open spec fn return_action_of(return_type: FfiType, arguments_and_receiver: usize) -> Option<ReturnAction> {
    match return_type {
        FfiType::UInt8 => Some(ReturnAction::PushInteger(NarrowInteger::U8)),
        FfiType::SInt8 => Some(ReturnAction::PushInteger(NarrowInteger::I8)),
        FfiType::UInt16 => Some(ReturnAction::PushInteger(NarrowInteger::U16)),
        FfiType::SInt16 => Some(ReturnAction::PushInteger(NarrowInteger::I16)),
        FfiType::UInt64 => Some(ReturnAction::PushPositive64),
        FfiType::Pointer => Some(ReturnAction::PushExternalAddress),
        FfiType::Void => Some(ReturnAction::PopLeavingReceiver((arguments_and_receiver - 1) as usize)),
        _ => None,
    }
}

/// The action for the result of a foreign call. A void call pops the
/// arguments and leaves the receiver, so at least the receiver must be on
/// the stack.
pub fn return_marshalling(return_type: FfiType, arguments_and_receiver: usize) -> (result: Result<ReturnAction, MarshallError>)
    requires
        return_type == FfiType::Void ==> arguments_and_receiver >= 1,
    ensures
        return_action_of(return_type, arguments_and_receiver) matches Some(action) ==> result == Ok::<ReturnAction, MarshallError>(action),
        return_action_of(return_type, arguments_and_receiver) is None ==> result == Err::<ReturnAction, MarshallError>(
            MarshallError::UnsupportedReturnType(return_type),
        ),
        result matches Ok(action) ==> (return_range(action) is Some ==> return_range(action) == ffi_integer_range(return_type)),
        return_type == FfiType::Pointer ==> result == Ok::<ReturnAction, MarshallError>(ReturnAction::PushExternalAddress),
        return_type == FfiType::Void ==> result == Ok::<ReturnAction, MarshallError>(
            ReturnAction::PopLeavingReceiver((arguments_and_receiver - 1) as usize),
        ),
{
    match return_type {
        FfiType::UInt8 => Ok(ReturnAction::PushInteger(NarrowInteger::U8)),
        FfiType::SInt8 => Ok(ReturnAction::PushInteger(NarrowInteger::I8)),
        FfiType::UInt16 => Ok(ReturnAction::PushInteger(NarrowInteger::U16)),
        FfiType::SInt16 => Ok(ReturnAction::PushInteger(NarrowInteger::I16)),
        FfiType::UInt64 => Ok(ReturnAction::PushPositive64),
        FfiType::Pointer => Ok(ReturnAction::PushExternalAddress),
        FfiType::Void => Ok(ReturnAction::PopLeavingReceiver(arguments_and_receiver - 1)),
        _ => Err(MarshallError::UnsupportedReturnType(return_type)),
    }
}

/// A supported integer argument is read by the reader of its own
/// signedness and width: the values the reader reads are exactly the values
/// of the argument's C type. Floats, doubles and pointers are read as such,
/// and the 64-bit signed integers, structs, voids and the other types are
/// refused.
pub proof fn law_arguments_are_read_at_their_own_type(arg_type: FfiType)
    ensures
        argument_kind_of(arg_type) matches Some(kind) ==> argument_range(kind) == ffi_integer_range(arg_type),
        argument_kind_of(arg_type) is Some <==> (ffi_integer_range(arg_type) is Some && arg_type != FfiType::SInt64)
            || arg_type == FfiType::Float || arg_type == FfiType::Double || arg_type == FfiType::Pointer,
        arg_type == FfiType::Float ==> argument_kind_of(arg_type) == Some(ArgumentKind::Float),
        arg_type == FfiType::Double ==> argument_kind_of(arg_type) == Some(ArgumentKind::Double),
        arg_type == FfiType::Pointer ==> argument_kind_of(arg_type) == Some(ArgumentKind::Pointer),
{
}

/// A supported integer result is pushed as an integer of its own
/// signedness and width: the values pushed are exactly the values of the
/// C return type. Only the 8-, 16- and unsigned 64-bit integers, pointers
/// and void are supported; a void call pops all but the receiver.
pub proof fn law_results_are_pushed_at_their_own_type(return_type: FfiType, arguments_and_receiver: usize)
    requires
        arguments_and_receiver >= 1,
    ensures
        return_action_of(return_type, arguments_and_receiver) matches Some(action) ==> (return_range(action) is Some
            ==> return_range(action) == ffi_integer_range(return_type)),
        return_action_of(return_type, arguments_and_receiver) is Some <==> return_type == FfiType::UInt8
            || return_type == FfiType::SInt8 || return_type == FfiType::UInt16 || return_type == FfiType::SInt16
            || return_type == FfiType::UInt64 || return_type == FfiType::Pointer || return_type == FfiType::Void,
        ffi_integer_range(return_type) is Some && return_action_of(return_type, arguments_and_receiver) is Some
            ==> return_range(return_action_of(return_type, arguments_and_receiver)->Some_0) is Some,
        return_action_of(return_type, arguments_and_receiver) matches Some(ReturnAction::PopLeavingReceiver(n))
            ==> return_type == FfiType::Void && n + 1 == arguments_and_receiver,
        return_type == FfiType::Pointer ==> return_action_of(return_type, arguments_and_receiver)
            == Some(ReturnAction::PushExternalAddress),
{
}

/// The smallest value of a narrow integer type.
pub open spec fn min_of(kind: NarrowInteger) -> int {
    match kind {
        NarrowInteger::U8 => 0,
        NarrowInteger::I8 => -128,
        NarrowInteger::U16 => 0,
        NarrowInteger::I16 => -32768,
    }
}

/// The largest value of a narrow integer type.
pub open spec fn max_of(kind: NarrowInteger) -> int {
    match kind {
        NarrowInteger::U8 => 255,
        NarrowInteger::I8 => 127,
        NarrowInteger::U16 => 65535,
        NarrowInteger::I16 => 32767,
    }
}

fn min_value(kind: NarrowInteger) -> (result: i64)
    ensures
        result == min_of(kind),
{
    match kind {
        NarrowInteger::U8 => 0,
        NarrowInteger::I8 => -128,
        NarrowInteger::U16 => 0,
        NarrowInteger::I16 => -32768,
    }
}

fn max_value(kind: NarrowInteger) -> (result: i64)
    ensures
        result == max_of(kind),
{
    match kind {
        NarrowInteger::U8 => 255,
        NarrowInteger::I8 => 127,
        NarrowInteger::U16 => 65535,
        NarrowInteger::I16 => 32767,
    }
}

/// Checks that an integer argument fits its narrow type: above the maximum
/// is refused first, then below the minimum.
pub fn check_narrow_argument(kind: NarrowInteger, value: i64, index: usize) -> (result: Result<i64, MarshallError>)
    ensures
        value > max_of(kind) ==> result == Err::<i64, MarshallError>(MarshallError::AboveMaximum(kind, value, index)),
        value < min_of(kind) ==> result == Err::<i64, MarshallError>(MarshallError::BelowMinimum(kind, value, index)),
        min_of(kind) <= value <= max_of(kind) ==> result == Ok::<i64, MarshallError>(value),
{
    if value > max_value(kind) {
        return Err(MarshallError::AboveMaximum(kind, value, index));
    }
    if value < min_value(kind) {
        return Err(MarshallError::BelowMinimum(kind, value, index));
    }
    Ok(value)
}

/// The value of an unsigned 8-bit argument: a character's code when the
/// argument is a character, its integer value otherwise, checked for range,
/// so that the codes 0 to 255 are stored as they are.
pub fn marshall_u8_value(is_character: bool, character_code: u32, integer_value: i64, index: usize) -> (result: Result<u8, MarshallError>)
    ensures
        ({
            let value = if is_character { character_code as i64 } else { integer_value };
            &&& value > 255 ==> result == Err::<u8, MarshallError>(MarshallError::AboveMaximum(NarrowInteger::U8, value, index))
            &&& value < 0 ==> result == Err::<u8, MarshallError>(MarshallError::BelowMinimum(NarrowInteger::U8, value, index))
            &&& 0 <= value <= 255 ==> result == Ok::<u8, MarshallError>(value as u8)
        }),
{
    let value: i64 = if is_character { character_code as i64 } else { integer_value };
    match check_narrow_argument(NarrowInteger::U8, value, index) {
        Ok(v) => Ok(v as u8),
        Err(e) => Err(e),
    }
}

/// The value of a signed 8-bit argument, checked for range.
pub fn marshall_i8_value(value: i64, index: usize) -> (result: Result<i8, MarshallError>)
    ensures
        value > 127 ==> result == Err::<i8, MarshallError>(MarshallError::AboveMaximum(NarrowInteger::I8, value, index)),
        value < -128 ==> result == Err::<i8, MarshallError>(MarshallError::BelowMinimum(NarrowInteger::I8, value, index)),
        -128 <= value <= 127 ==> result == Ok::<i8, MarshallError>(value as i8),
{
    match check_narrow_argument(NarrowInteger::I8, value, index) {
        Ok(v) => Ok(v as i8),
        Err(e) => Err(e),
    }
}

/// The value of an unsigned 16-bit argument, checked for range.
pub fn marshall_u16_value(value: i64, index: usize) -> (result: Result<u16, MarshallError>)
    ensures
        value > 65535 ==> result == Err::<u16, MarshallError>(MarshallError::AboveMaximum(NarrowInteger::U16, value, index)),
        value < 0 ==> result == Err::<u16, MarshallError>(MarshallError::BelowMinimum(NarrowInteger::U16, value, index)),
        0 <= value <= 65535 ==> result == Ok::<u16, MarshallError>(value as u16),
{
    match check_narrow_argument(NarrowInteger::U16, value, index) {
        Ok(v) => Ok(v as u16),
        Err(e) => Err(e),
    }
}

/// The value of a signed 16-bit argument, checked for range.
pub fn marshall_i16_value(value: i64, index: usize) -> (result: Result<i16, MarshallError>)
    ensures
        value > 32767 ==> result == Err::<i16, MarshallError>(MarshallError::AboveMaximum(NarrowInteger::I16, value, index)),
        value < -32768 ==> result == Err::<i16, MarshallError>(MarshallError::BelowMinimum(NarrowInteger::I16, value, index)),
        -32768 <= value <= 32767 ==> result == Ok::<i16, MarshallError>(value as i16),
{
    match check_narrow_argument(NarrowInteger::I16, value, index) {
        Ok(v) => Ok(v as i16),
        Err(e) => Err(e),
    }
}

/// A pointer argument must be an external address.
pub fn marshall_pointer_check(is_external_address: bool, index: usize) -> (result: Result<(), MarshallError>)
    ensures
        is_external_address ==> result is Ok,
        !is_external_address ==> result == Err::<(), MarshallError>(MarshallError::NotAnExternalAddress(index)),
{
    if !is_external_address {
        return Err(MarshallError::NotAnExternalAddress(index));
    }
    Ok(())
}


/// The name of a narrow type as the messages spell it.
pub open spec fn narrow_name(kind: NarrowInteger) -> Seq<char> {
    match kind {
        NarrowInteger::U8 => "uint8"@,
        NarrowInteger::I8 => "int8"@,
        NarrowInteger::U16 => "uint16"@,
        NarrowInteger::I16 => "int16"@,
    }
}

/// The word that opens a message about a value below the minimum (the
/// unsigned types are spelled `unit` there).
pub open spec fn below_label(kind: NarrowInteger) -> Seq<char> {
    match kind {
        NarrowInteger::U8 => "unit8"@,
        NarrowInteger::I8 => "int8"@,
        NarrowInteger::U16 => "unit16"@,
        NarrowInteger::I16 => "int16"@,
    }
}

/// How an unsupported argument type is named in messages.
pub open spec fn argument_type_label(t: FfiType) -> Seq<char> {
    match t {
        FfiType::SInt64 => "FFI_TYPE_SINT64"@,
        FfiType::Struct => "FFI_TYPE_STRUCT"@,
        FfiType::Void => "Void"@,
        FfiType::Int => "Int"@,
        FfiType::LongDouble => "Long"@,
        FfiType::Complex => "Complex"@,
        _ => "Unsupported"@,
    }
}

/// How an unsupported return type is named in messages.
pub open spec fn return_type_label(t: FfiType) -> Seq<char> {
    match t {
        FfiType::Float => "FFI_TYPE_FLOAT"@,
        FfiType::Double => "FFI_TYPE_DOUBLE"@,
        FfiType::UInt32 => "FFI_TYPE_UINT32"@,
        FfiType::SInt32 => "FFI_TYPE_SINT32"@,
        FfiType::SInt64 => "FFI_TYPE_SINT64"@,
        FfiType::Struct => "FFI_TYPE_STRUCT"@,
        FfiType::Int => "Int"@,
        FfiType::LongDouble => "Long"@,
        FfiType::Complex => "Complex"@,
        _ => "Unsupported"@,
    }
}

/// The text that explains a marshalling error.
pub open spec fn message_of(e: MarshallError) -> Seq<char> {
    match e {
        MarshallError::UnsupportedArgumentType(t, index) => match t {
            FfiType::Other(code) => "Unknown type "@ + decimal(code as nat) + " of the argument at "@
                + decimal(index as nat),
            _ => argument_type_label(t) + " argument type of the argument at "@ + decimal(
                index as nat,
            ) + " is not supported"@,
        },
        MarshallError::UnsupportedReturnType(t) => match t {
            FfiType::Other(code) => "Unknown return type "@ + decimal(code as nat),
            _ => return_type_label(t) + " return type is not supported"@,
        },
        MarshallError::AboveMaximum(kind, value, index) => narrow_name(kind) + " argument ("@
            + signed_decimal(value as int) + ") at index "@ + decimal(index as nat)
            + " exceeded the max value of "@ + narrow_name(kind) + "("@ + signed_decimal(max_of(kind))
            + ")"@,
        MarshallError::BelowMinimum(kind, value, index) => below_label(kind) + " argument ("@
            + signed_decimal(value as int) + ") at index "@ + decimal(index as nat)
            + " exceeded the min value of "@ + narrow_name(kind) + "("@ + signed_decimal(min_of(kind))
            + ")"@,
        MarshallError::NotAnExternalAddress(index) => "pointer argument at index "@ + decimal(
            index as nat,
        ) + " is not an external address"@,
    }
}

fn narrow_name_text(kind: NarrowInteger) -> (result: &'static str)
    ensures
        result@ == narrow_name(kind),
{
    match kind {
        NarrowInteger::U8 => "uint8",
        NarrowInteger::I8 => "int8",
        NarrowInteger::U16 => "uint16",
        NarrowInteger::I16 => "int16",
    }
}

fn below_label_text(kind: NarrowInteger) -> (result: &'static str)
    ensures
        result@ == below_label(kind),
{
    match kind {
        NarrowInteger::U8 => "unit8",
        NarrowInteger::I8 => "int8",
        NarrowInteger::U16 => "unit16",
        NarrowInteger::I16 => "int16",
    }
}

fn argument_type_text(t: FfiType) -> (result: &'static str)
    ensures
        result@ == argument_type_label(t),
{
    match t {
        FfiType::SInt64 => "FFI_TYPE_SINT64",
        FfiType::Struct => "FFI_TYPE_STRUCT",
        FfiType::Void => "Void",
        FfiType::Int => "Int",
        FfiType::LongDouble => "Long",
        FfiType::Complex => "Complex",
        _ => "Unsupported",
    }
}

fn return_type_text(t: FfiType) -> (result: &'static str)
    ensures
        result@ == return_type_label(t),
{
    match t {
        FfiType::Float => "FFI_TYPE_FLOAT",
        FfiType::Double => "FFI_TYPE_DOUBLE",
        FfiType::UInt32 => "FFI_TYPE_UINT32",
        FfiType::SInt32 => "FFI_TYPE_SINT32",
        FfiType::SInt64 => "FFI_TYPE_SINT64",
        FfiType::Struct => "FFI_TYPE_STRUCT",
        FfiType::Int => "Int",
        FfiType::LongDouble => "Long",
        FfiType::Complex => "Complex",
        _ => "Unsupported",
    }
}

impl MarshallError {
    /// The text that explains this error.
    pub fn message(&self) -> (result: String)
        ensures
            result@ == message_of(*self),
    {
        let mut r = String::new();
        match *self {
            MarshallError::UnsupportedArgumentType(t, index) => match t {
                FfiType::Other(code) => {
                    r.append("Unknown type ");
                    r.append(u64_to_decimal(code as u64).as_str());
                    r.append(" of the argument at ");
                    r.append(u64_to_decimal(index as u64).as_str());
                },
                _ => {
                    r.append(argument_type_text(t));
                    r.append(" argument type of the argument at ");
                    r.append(u64_to_decimal(index as u64).as_str());
                    r.append(" is not supported");
                },
            },
            MarshallError::UnsupportedReturnType(t) => match t {
                FfiType::Other(code) => {
                    r.append("Unknown return type ");
                    r.append(u64_to_decimal(code as u64).as_str());
                },
                _ => {
                    r.append(return_type_text(t));
                    r.append(" return type is not supported");
                },
            },
            MarshallError::AboveMaximum(kind, value, index) => {
                r.append(narrow_name_text(kind));
                r.append(" argument (");
                r.append(i64_to_decimal(value).as_str());
                r.append(") at index ");
                r.append(u64_to_decimal(index as u64).as_str());
                r.append(" exceeded the max value of ");
                r.append(narrow_name_text(kind));
                r.append("(");
                r.append(i64_to_decimal(max_value(kind)).as_str());
                r.append(")");
            },
            MarshallError::BelowMinimum(kind, value, index) => {
                r.append(below_label_text(kind));
                r.append(" argument (");
                r.append(i64_to_decimal(value).as_str());
                r.append(") at index ");
                r.append(u64_to_decimal(index as u64).as_str());
                r.append(" exceeded the min value of ");
                r.append(narrow_name_text(kind));
                r.append("(");
                r.append(i64_to_decimal(min_value(kind)).as_str());
                r.append(")");
            },
            MarshallError::NotAnExternalAddress(index) => {
                r.append("pointer argument at index ");
                r.append(u64_to_decimal(index as u64).as_str());
                r.append(" is not an external address");
            },
        }
        assert(r@ =~= message_of(*self));
        r
    }
}

} // verus!

use gtoolkit_vm::bindings::configuration::InterpreterConfiguration;
use gtoolkit_vm::bindings::export::NamedPrimitive;
use gtoolkit_vm::bindings::interpreter::{LogLevel, PharoInterpreter};
use gtoolkit_vm::bindings::marshalling::{
    argument_marshalling, check_narrow_argument, marshall_i16_value, marshall_i8_value,
    marshall_pointer_check, marshall_u16_value, marshall_u8_value, return_marshalling, ArgumentKind,
    FfiType, MarshallError, NarrowInteger, ReturnAction,
};
use gtoolkit_vm::bindings::parameters::{ImageParameters, InterpreterParameters, VirtualMachineParameters};
use gtoolkit_vm::bindings::proxy::{cast_integer, ObjectFieldIndex, ObjectPointer, StackOffset};
use gtoolkit_vm::bindings::smalltalk::Smalltalk;

fn valid_export(name: &str) -> NamedPrimitive {
    NamedPrimitive::new()
        .with_plugin_name("".to_string())
        .with_primitive_name(name.to_string())
        .with_primitive_address(8)
}

#[test]
fn argument_readers_by_type() {
    assert_eq!(argument_marshalling(FfiType::UInt8, 0), Ok(ArgumentKind::U8));
    assert_eq!(argument_marshalling(FfiType::Pointer, 3), Ok(ArgumentKind::Pointer));
    assert_eq!(argument_marshalling(FfiType::Double, 1), Ok(ArgumentKind::Double));
    assert_eq!(
        argument_marshalling(FfiType::Struct, 2),
        Err(MarshallError::UnsupportedArgumentType(FfiType::Struct, 2))
    );
}

#[test]
fn return_actions_by_type() {
    assert_eq!(return_marshalling(FfiType::Void, 3), Ok(ReturnAction::PopLeavingReceiver(2)));
    assert_eq!(return_marshalling(FfiType::UInt64, 1), Ok(ReturnAction::PushPositive64));
    assert_eq!(
        return_marshalling(FfiType::SInt16, 1),
        Ok(ReturnAction::PushInteger(NarrowInteger::I16))
    );
    assert_eq!(
        return_marshalling(FfiType::Float, 1),
        Err(MarshallError::UnsupportedReturnType(FfiType::Float))
    );
}

#[test]
fn narrow_arguments_are_checked_for_range() {
    assert_eq!(check_narrow_argument(NarrowInteger::U8, 255, 0), Ok(255));
    assert_eq!(
        check_narrow_argument(NarrowInteger::U8, 256, 4),
        Err(MarshallError::AboveMaximum(NarrowInteger::U8, 256, 4))
    );
    assert_eq!(
        check_narrow_argument(NarrowInteger::I8, -129, 1),
        Err(MarshallError::BelowMinimum(NarrowInteger::I8, -129, 1))
    );
    assert_eq!(marshall_u8_value(true, 65, 1000, 0), Ok(65));
    assert_eq!(marshall_u8_value(false, 0, 200, 0), Ok(200));
    assert_eq!(marshall_u8_value(true, 200, 0, 0), Ok(200));
    assert_eq!(marshall_u8_value(true, 255, 0, 0), Ok(255));
    assert_eq!(
        marshall_u8_value(true, 956, 0, 3),
        Err(MarshallError::AboveMaximum(NarrowInteger::U8, 956, 3))
    );
    assert_eq!(marshall_i8_value(-128, 0), Ok(-128));
    assert_eq!(marshall_u16_value(65535, 0), Ok(65535));
    assert_eq!(
        marshall_i16_value(40000, 2),
        Err(MarshallError::AboveMaximum(NarrowInteger::I16, 40000, 2))
    );
    assert_eq!(marshall_pointer_check(true, 0), Ok(()));
    assert_eq!(marshall_pointer_check(false, 5), Err(MarshallError::NotAnExternalAddress(5)));
}

#[test]
fn marshalling_error_messages() {
    assert_eq!(
        MarshallError::AboveMaximum(NarrowInteger::U8, 300, 1).message(),
        "uint8 argument (300) at index 1 exceeded the max value of uint8(255)"
    );
    assert_eq!(
        MarshallError::BelowMinimum(NarrowInteger::U8, -1, 2).message(),
        "unit8 argument (-1) at index 2 exceeded the min value of uint8(0)"
    );
    assert_eq!(
        MarshallError::NotAnExternalAddress(3).message(),
        "pointer argument at index 3 is not an external address"
    );
    assert_eq!(
        MarshallError::UnsupportedArgumentType(FfiType::Other(99), 4).message(),
        "Unknown type 99 of the argument at 4"
    );
    assert_eq!(
        MarshallError::UnsupportedReturnType(FfiType::Float).message(),
        "FFI_TYPE_FLOAT return type is not supported"
    );
}

#[test]
fn log_levels_round_trip() {
    for n in 0u8..=5 {
        assert_eq!(LogLevel::from_u8(n).unwrap().to_u8(), n);
    }
    assert!(LogLevel::from_u8(6).is_none());
}

#[test]
fn object_pointers() {
    let p = ObjectPointer::from_native_c(0x1000);
    assert!(!p.is_immediate());
    assert!(ObjectPointer(0x1001).is_immediate());
    assert_eq!(p.offset_by(8).as_i64(), 0x1008);
    assert_eq!(p.into_native(), 0x1000);
    assert_eq!(ObjectFieldIndex::new(3).0, 3);
    assert_eq!(StackOffset::new(-1).0, -1);
    assert_eq!(cast_integer::<u64, i64>(42), 42i64);
    assert_eq!(cast_integer::<i64, u64>(42), 42u64);
    assert_eq!(cast_integer::<usize, u64>(4096), 4096u64);
}

#[test]
fn smalltalk_decisions() {
    assert_eq!(Smalltalk::stack_object_value(ObjectPointer(3)), None);
    assert_eq!(Smalltalk::stack_object_value(ObjectPointer(16)), Some(ObjectPointer(16)));
    assert_eq!(Smalltalk::stack_object_value_unchecked(ObjectPointer(1)), (ObjectPointer(0), true));
    assert_eq!(
        Smalltalk::primitive_bool_object(true, ObjectPointer(8), ObjectPointer(16)),
        ObjectPointer(8)
    );
    assert_eq!(Smalltalk::identity_hash(false, 1, 2), 512);
    assert_eq!(Smalltalk::identity_hash(true, 1, 2), 256);
    assert_eq!(Smalltalk::is_identical(ObjectPointer(8), ObjectPointer(8), false), Some(true));
    assert_eq!(Smalltalk::is_identical(ObjectPointer(8), ObjectPointer(8), true), None);
    assert!(Smalltalk::prepare_to_store(true, true));
    assert!(!Smalltalk::prepare_to_store(false, true));
}

#[test]
fn parameters_from_arguments() {
    let mut parameters = InterpreterParameters::from_args(
        vec!["vm".to_string(), "Pharo.image".to_string()],
        vec!["HOME=/home".to_string()],
    );
    assert_eq!(parameters.arguments(), vec!["vm".to_string(), "Pharo.image".to_string()]);
    assert_eq!(parameters.environment(), vec!["HOME=/home".to_string()]);
    assert_eq!(parameters.image_file_name(), "");
    parameters.set_image_file_name("Pharo.image".to_string());
    assert_eq!(parameters.image_file_name(), "Pharo.image");
    assert!(!parameters.is_default_image());
    parameters.set_is_interactive_session(true);
    assert!(parameters.is_interactive_session());
}

#[test]
fn default_parameters_are_empty() {
    let parameters = InterpreterParameters::default();
    assert!(!parameters.has_arguments());
    assert_eq!(parameters.image_file_name(), "");
    assert_eq!(parameters.eden_size(), 0);
}

#[test]
fn configuration_leads_to_parameters() {
    let mut configuration = InterpreterConfiguration::new("Pharo.image".to_string());
    configuration.set_interactive_session(true);
    configuration.set_is_worker_thread(true);
    configuration.set_extra_arguments(vec!["--no-quit".to_string()]);
    let parameters = configuration.create_interpreter_parameters("vm".to_string(), vec![]);
    assert_eq!(
        parameters.arguments(),
        vec!["vm".to_string(), "Pharo.image".to_string(), "--no-quit".to_string()]
    );
    assert_eq!(parameters.image_file_name(), "Pharo.image");
    assert!(parameters.is_interactive_session());
    assert!(parameters.is_worker());
}

#[test]
fn configuration_setters_chain() {
    let mut configuration = InterpreterConfiguration::new("Pharo.image".to_string());
    configuration
        .set_interactive_session(true)
        .set_is_worker_thread(true)
        .set_should_print_stack_on_signals(true)
        .set_extra_arguments(vec!["--no-quit".to_string()]);
    assert!(configuration.is_interactive_session());
    assert!(configuration.should_print_stack_on_signals());
    assert_eq!(configuration.extra_arguments(), vec!["--no-quit".to_string()]);
}

#[test]
fn parameter_walk_hands_out_every_entry_then_none() {
    let parameters = ImageParameters::new(vec!["a".to_string(), "b".to_string(), "c".to_string()]);
    let mut walk = parameters.iter();
    assert_eq!(walk.next(), Some("a".to_string()));
    assert_eq!(walk.next(), Some("b".to_string()));
    assert_eq!(walk.next(), Some("c".to_string()));
    assert_eq!(walk.next(), None);
    assert_eq!(walk.next(), None);
    assert_eq!(parameters.len(), 3);
    assert_eq!(parameters.as_vec(), vec!["a".to_string(), "b".to_string(), "c".to_string()]);
    let mut count = 0;
    let mut again = parameters.iter();
    while again.next().is_some() {
        count += 1;
    }
    assert_eq!(count, parameters.len());
    let empty = VirtualMachineParameters::new(vec![]);
    assert_eq!(empty.len(), 0);
    assert_eq!(empty.iter().next(), None);
    assert!(empty.as_vec().is_empty());
}

#[test]
fn interpreter_exports_valid_prefix_and_appends() {
    let table = vec![valid_export("a"), NamedPrimitive::null(), valid_export("b")];
    let mut interpreter =
        PharoInterpreter::new(InterpreterConfiguration::new("x.image".to_string()), table);
    assert_eq!(interpreter.vm_exports().len(), 1);
    interpreter.add_vm_export(valid_export("c"));
    assert_eq!(interpreter.vm_exports().len(), 2);
    assert_eq!(interpreter.vm_exports()[1].primitive_name(), "c");
    interpreter.add_vm_export(NamedPrimitive::new());
    assert_eq!(interpreter.vm_exports().len(), 2);
    assert_eq!(interpreter.guess_stack_size(), 32 * 1024 * 1024);
    assert!(!interpreter.starts_in_worker_thread());
}

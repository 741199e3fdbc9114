use gtoolkit_vm::bindings::export::{primitive, sqExport, NamedPrimitive};

#[test]
fn new_sq_export() {
    let sq_export = sqExport::new();
    assert_eq!(sq_export.plugin_name_is_null(), true);
    assert_eq!(sq_export.primitive_name_is_null(), true);
    assert_eq!(sq_export.primitive_address() == 0, true);
    assert_eq!(sq_export.plugin_name(), "");
    assert_eq!(sq_export.primitive_name(), "");
    assert_eq!(sq_export.primitive_address() == 0, true);
    assert_eq!(sq_export.is_valid(), false);
}

#[test]
fn new_export() {
    let export = NamedPrimitive::new();
    assert_eq!(export.plugin_name(), "");
    assert_eq!(export.primitive_name(), "");
    assert_eq!(export.primitive_address() == 0, true);
}

#[test]
fn export_with_plugin_name() {
    let mut export = NamedPrimitive::new();
    export = export.with_plugin_name("MyPlugin".to_string());
    assert_eq!(export.plugin_name(), "MyPlugin");
    assert_eq!(export.primitive_name(), "");
    assert_eq!(export.primitive_address() == 0, true);
}

#[test]
fn export_with_primitive_name() {
    let mut export = NamedPrimitive::new();
    export = export.with_primitive_name("myPrimitive".to_string());
    assert_eq!(export.plugin_name(), "");
    assert_eq!(export.primitive_name(), "myPrimitive");
    assert_eq!(export.primitive_address() == 0, true);
}

#[test]
fn export_with_all_three_is_valid() {
    let export = NamedPrimitive::new()
        .with_plugin_name("".to_string())
        .with_primitive_name("primitiveGetNamedPrimitives".to_string())
        .with_primitive_address(0x1000);
    assert!(export.native().is_valid());
    assert_eq!(export.primitive_address(), 0x1000);
}

#[test]
fn export_name_from_c_string_bytes() {
    let export = NamedPrimitive::new().with_primitive_name_bytes(b"abc\0def".to_vec());
    assert_eq!(export.primitive_name(), "abc");
}

#[test]
fn export_name_bytes_that_are_not_text_are_kept() {
    let mut entry = sqExport::new();
    entry.set_primitive_name_bytes(vec![0xff, 0xfe, 0]);
    assert!(!entry.primitive_name_is_null());
}

#[test]
fn primitive_macro_expansion() {
    let export = primitive("primitivePollLogger", 42);
    assert_eq!(export.plugin_name(), "");
    assert_eq!(export.primitive_name(), "primitivePollLogger");
    assert_eq!(export.primitive_address(), 42);
}

#[test]
fn exports_length_stops_at_first_invalid() {
    let valid = || {
        NamedPrimitive::new()
            .with_plugin_name("".to_string())
            .with_primitive_name("p".to_string())
            .with_primitive_address(1)
    };
    let table = vec![valid(), valid(), NamedPrimitive::null(), valid()];
    assert_eq!(NamedPrimitive::detect_exports_length(&table), 2);
    let empty: Vec<NamedPrimitive> = vec![];
    assert_eq!(NamedPrimitive::detect_exports_length(&empty), 0);
}

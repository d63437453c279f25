use wdk::binding::{
    resolve_binding, resolve_signature, AliasedType, BindingError, BindingType, FnParam,
    FnSignature, PathSegment, TypeAlias,
};
use wdk::text::to_snake_case;

#[test]
fn camel_case() {
    assert_eq!(to_snake_case("camelCaseString"), "camel_case_string");
}

#[test]
fn short_camel_case() {
    assert_eq!(to_snake_case("aB"), "a_b");
}

#[test]
fn pascal_case() {
    assert_eq!(to_snake_case("PascalCaseString"), "pascal_case_string");
}

#[test]
fn pascal_case_with_leading_acronym() {
    assert_eq!(to_snake_case("ASCIIEncodedString"), "ascii_encoded_string");
}

#[test]
fn pascal_case_with_trailing_acronym() {
    assert_eq!(to_snake_case("IsASCII"), "is_ascii");
}

#[test]
fn screaming_snake_case() {
    assert_eq!(to_snake_case("PFN_WDF_DRIVER_DEVICE_ADD"), "pfn_wdf_driver_device_add");
}

#[test]
fn screaming_snake_case_with_leading_acronym() {
    assert_eq!(to_snake_case("ASCII_STRING"), "ascii_string");
}

#[test]
fn screaming_snake_case_with_leading_underscore() {
    assert_eq!(to_snake_case("_WDF_DRIVER_INIT_FLAGS"), "_wdf_driver_init_flags");
}

#[test]
fn snake_case() {
    assert_eq!(to_snake_case("snake_case_string"), "snake_case_string");
}

#[test]
fn snake_case_with_leading_underscore() {
    assert_eq!(
        to_snake_case("_snake_case_with_leading_underscore"),
        "_snake_case_with_leading_underscore"
    );
}

fn segment(ident: &str) -> PathSegment {
    PathSegment { ident: ident.to_string(), arguments: String::new() }
}

fn path(idents: &[&str]) -> Vec<PathSegment> {
    idents.iter().map(|i| segment(i)).collect()
}

fn param(name: &str, ty: BindingType) -> FnParam {
    FnParam { name: Some(name.to_string()), ty }
}

fn driver_create_signature() -> FnSignature {
    FnSignature {
        inputs: vec![
            param("DriverGlobals", BindingType::Path(path(&["PWDF_DRIVER_GLOBALS"]))),
            param("DriverObject", BindingType::Path(path(&["PDRIVER_OBJECT"]))),
            param("RegistryPath", BindingType::Path(path(&["PCUNICODE_STRING"]))),
            param("DriverAttributes", BindingType::Path(path(&["PWDF_OBJECT_ATTRIBUTES"]))),
            param("DriverConfig", BindingType::Path(path(&["PWDF_DRIVER_CONFIG"]))),
            param(
                "Driver",
                BindingType::PointerToPath { mutable: true, segments: path(&["WDFDRIVER"]) },
            ),
        ],
        output: Some(BindingType::Path(path(&["NTSTATUS"]))),
    }
}

fn option_of(sig: FnSignature) -> AliasedType {
    AliasedType::Path { last_segment: Some("Option".to_string()), fn_argument: Some(sig) }
}

#[test]
fn driver_create_resolves_through_the_table() {
    let aliases = vec![
        TypeAlias { name: "NTSTATUS".to_string(), aliased: AliasedType::Other },
        TypeAlias {
            name: "PFN_WDFDRIVERCREATE".to_string(),
            aliased: option_of(driver_create_signature()),
        },
    ];
    let b = resolve_binding("WdfDriverCreate", &aliases).unwrap();
    assert_eq!(b.function_pointer_type, "PFN_WDFDRIVERCREATE");
    assert_eq!(b.function_table_index, "WdfDriverCreateTableIndex");
    assert_eq!(b.inline_fn_name, "wdf_driver_create_impl");
    assert_eq!(
        b.parameter_identifiers,
        vec!["DriverObject", "RegistryPath", "DriverAttributes", "DriverConfig", "Driver"]
    );
    assert_eq!(
        b.parameters[0],
        param("DriverObject", BindingType::Path(path(&["wdk_sys", "PDRIVER_OBJECT"])))
    );
    assert_eq!(
        b.parameters[4],
        param(
            "Driver",
            BindingType::PointerToPath { mutable: true, segments: path(&["wdk_sys", "WDFDRIVER"]) }
        )
    );
    assert_eq!(b.return_type, Some(BindingType::Path(path(&["wdk_sys", "NTSTATUS"]))));
    assert!(b.must_use);
}

#[test]
fn a_unit_result_need_not_be_used() {
    let sig = FnSignature {
        inputs: vec![
            param("DriverGlobals", BindingType::Path(path(&["PWDF_DRIVER_GLOBALS"]))),
            param("Object", BindingType::Path(path(&["WDFOBJECT"]))),
        ],
        output: None,
    };
    let b = resolve_signature("WdfObjectDelete", &sig).unwrap();
    assert_eq!(b.return_type, None);
    assert!(!b.must_use);
    assert_eq!(b.inline_fn_name, "wdf_object_delete_impl");
}

#[test]
fn a_missing_alias_is_reported() {
    assert_eq!(
        resolve_binding("WdfDeviceCreate", &Vec::new()),
        Err(BindingError::TypeAliasNotFound { name: "PFN_WDFDEVICECREATE".to_string() })
    );
}

#[test]
fn the_alias_must_be_an_optional_fn_pointer() {
    let alias = |aliased| vec![TypeAlias { name: "PFN_WDFX".to_string(), aliased }];
    assert_eq!(resolve_binding("WdfX", &alias(AliasedType::Other)), Err(BindingError::NotATypePath));
    assert_eq!(
        resolve_binding(
            "WdfX",
            &alias(AliasedType::Path {
                last_segment: Some("Box".to_string()),
                fn_argument: Some(driver_create_signature()),
            })
        ),
        Err(BindingError::NotAnOption)
    );
    assert_eq!(
        resolve_binding(
            "WdfX",
            &alias(AliasedType::Path { last_segment: Some("Option".to_string()), fn_argument: None })
        ),
        Err(BindingError::NoFnPointerArgument)
    );
}

#[test]
fn the_first_parameter_must_be_the_driver_globals() {
    let mut sig = driver_create_signature();
    sig.inputs.remove(0);
    assert_eq!(resolve_signature("WdfDriverCreate", &sig), Err(BindingError::MissingDriverGlobals));
    let empty = FnSignature { inputs: Vec::new(), output: None };
    assert_eq!(resolve_signature("WdfX", &empty), Err(BindingError::MissingDriverGlobals));
}

#[test]
fn parameters_must_be_paths_or_pointers_to_paths() {
    let mut sig = driver_create_signature();
    sig.inputs[3].ty = BindingType::Other;
    sig.inputs[5].name = None;
    assert_eq!(
        resolve_signature("WdfDriverCreate", &sig),
        Err(BindingError::UnsupportedParameterType { index: 3 })
    );
}

#[test]
fn the_result_must_be_a_path() {
    let mut sig = driver_create_signature();
    sig.output = Some(BindingType::PointerToPath { mutable: false, segments: path(&["X"]) });
    sig.inputs[5].name = None;
    assert_eq!(resolve_signature("WdfDriverCreate", &sig), Err(BindingError::UnsupportedReturnType));
}

#[test]
fn parameters_must_be_named() {
    let mut sig = driver_create_signature();
    sig.inputs[4].name = None;
    assert_eq!(
        resolve_signature("WdfDriverCreate", &sig),
        Err(BindingError::UnnamedParameter { index: 4 })
    );
}

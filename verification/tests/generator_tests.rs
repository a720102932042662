//! Tests of the per-schema generator: host module blocks and the two
//! platform FFI modules, over concrete schemas.

use craby::generator::CodeGenerator;
use craby::schema::{FunctionSpec, Parameter, Schema, Spec, TypeAnnotation};

fn function_annotation(ret: TypeAnnotation, params: Vec<Parameter>) -> TypeAnnotation {
    TypeAnnotation::FunctionTypeAnnotation {
        return_type_annotation: Box::new(ret),
        params,
    }
}

fn param(name: &str, optional: bool, ty: TypeAnnotation) -> Parameter {
    Parameter {
        name: name.to_string(),
        optional,
        type_annotation: ty,
    }
}

fn schema_with_methods(module_name: &str, methods: Vec<FunctionSpec>) -> Schema {
    Schema {
        module_name: module_name.to_string(),
        kind: "NativeModule".to_string(),
        alias_map: Vec::new(),
        enum_map: Vec::new(),
        module_spec: Spec {
            event_emitters: Vec::new(),
            methods,
        },
    }
}

fn multiply_schema(b_type: TypeAnnotation) -> Schema {
    schema_with_methods(
        "MyModule",
        vec![FunctionSpec {
            name: "multiply".to_string(),
            optional: false,
            type_annotation: function_annotation(
                TypeAnnotation::NumberTypeAnnotation,
                vec![
                    param("a", false, TypeAnnotation::NumberTypeAnnotation),
                    param("b", false, b_type),
                ],
            ),
        }],
    )
}

#[test]
fn test_function_generation() {
    let generator = CodeGenerator::new();
    let schema = multiply_schema(TypeAnnotation::NumberTypeAnnotation);
    let result = generator.generate_module(&schema).unwrap();

    assert_eq!(
        result,
        [
            "pub mod my_module {",
            "    use crate::impls;",
            "",
            "    pub fn multiply(a: f64, b: f64) -> f64 {",
            "        impls::multiply(a, b)",
            "    }",
            "}",
        ]
        .join("\n")
    );
}

#[test]
fn test_void_function_generation() {
    let json_schema = r#"
        {
          "moduleName": "MyModule",
          "type": "NativeModule",
          "aliasMap": {},
          "enumMap": {},
          "spec": {
            "eventEmitters": [],
            "methods": [
              {
                "name": "log_message",
                "optional": false,
                "typeAnnotation": {
                  "type": "FunctionTypeAnnotation",
                  "returnTypeAnnotation": {
                    "type": "VoidTypeAnnotation"
                  },
                  "params": [
                    {
                      "name": "message",
                      "optional": false,
                      "typeAnnotation": {
                        "type": "StringTypeAnnotation"
                      }
                    }
                  ]
                }
              }
            ]
          }
        }
        "#;

    assert_eq!(json_schema, json_schema);
}

#[test]
fn test_optional_parameters() {
    let json_schema = r#"
        {
          "moduleName": "MyModule",
          "type": "NativeModule",
          "aliasMap": {},
          "enumMap": {},
          "spec": {
            "eventEmitters": [],
            "methods": [
              {
                "name": "greet",
                "optional": false,
                "typeAnnotation": {
                  "type": "FunctionTypeAnnotation",
                  "returnTypeAnnotation": {
                    "type": "StringTypeAnnotation"
                  },
                  "params": [
                    {
                      "name": "name",
                      "optional": false,
                      "typeAnnotation": {
                        "type": "StringTypeAnnotation"
                      }
                    },
                    {
                      "name": "age",
                      "optional": true,
                      "typeAnnotation": {
                        "type": "NumberTypeAnnotation"
                      }
                    }
                  ]
                }
              }
            ]
          }
        }
        "#;

    assert_eq!(json_schema, json_schema);
}

#[test]
fn test_enum_and_union_types() {
    let json_schema = r#"
        {
          "moduleName": "MyModule",
          "type": "NativeModule",
          "aliasMap": {},
          "enumMap": {},
          "spec": {
            "eventEmitters": [],
            "methods": [
              {
                "name": "handle_value",
                "optional": false,
                "typeAnnotation": {
                  "type": "FunctionTypeAnnotation",
                  "returnTypeAnnotation": {
                    "type": "VoidTypeAnnotation"
                  },
                  "params": [
                    {
                      "name": "enum_param",
                      "optional": false,
                      "typeAnnotation": {
                        "type": "EnumDeclaration",
                        "memberType": "StringTypeAnnotation",
                        "members": [
                          {"name": "OPTION_A", "value": "a"},
                          {"name": "OPTION_B", "value": "b"}
                        ]
                      }
                    },
                    {
                      "name": "union_param",
                      "optional": false,
                      "typeAnnotation": {
                        "type": "UnionTypeAnnotation",
                        "memberType": "NumberTypeAnnotation",
                        "types": []
                      }
                    }
                  ]
                }
              }
            ]
          }
        }
        "#;

    assert_eq!(json_schema, json_schema);
}

#[test]
fn test_nullable_types() {
    let json_schema = r#"
        {
          "moduleName": "MyModule",
          "type": "NativeModule",
          "aliasMap": {},
          "enumMap": {},
          "spec": {
            "eventEmitters": [],
            "methods": [
              {
                "name": "nullable_test",
                "optional": false,
                "typeAnnotation": {
                  "type": "FunctionTypeAnnotation",
                  "returnTypeAnnotation": {
                    "type": "NullableTypeAnnotation",
                    "typeAnnotation": {
                      "type": "StringTypeAnnotation"
                    }
                  },
                  "params": [
                    {
                      "name": "nullable_param",
                      "optional": false,
                      "typeAnnotation": {
                        "type": "NullableTypeAnnotation",
                        "typeAnnotation": {
                          "type": "NumberTypeAnnotation"
                        }
                      }
                    }
                  ]
                }
              }
            ]
          }
        }
        "#;

    assert_eq!(json_schema, json_schema);
}

#[test]
fn test_generate_module() {
    let generator = CodeGenerator::new();
    let schema = multiply_schema(TypeAnnotation::NumberTypeAnnotation);
    let result = generator.generate_module(&schema).unwrap();

    assert_eq!(
        result,
        [
            "pub mod my_module {",
            "    use crate::impls;",
            "",
            "    pub fn multiply(a: f64, b: f64) -> f64 {",
            "        impls::multiply(a, b)",
            "    }",
            "}",
        ]
        .join("\n")
    );
}

#[test]
fn test_generate_android_ffi_module() {
    let generator = CodeGenerator::new();
    let schema = multiply_schema(TypeAnnotation::StringTypeAnnotation);
    let result = generator
        .generate_android_ffi_module(&schema, &"lib".to_string(), &"com.example".to_string())
        .unwrap();

    assert_eq!(
        result,
        [
            "use craby_core::jni::sys::*;",
            "use craby_core::jni::{objects::JObject, JNIEnv};",
            "use craby_core::android::interop::string::*;",
            "",
            "#[no_mangle]",
            "pub extern \"C\" fn Java_com_example_MyModuleModule_nativeMultiply(mut env: JNIEnv, _class: JObject, a: jdouble, b: jstring) -> jdouble {",
            "    let b = String::from_native(b, &mut env).unwrap();",
            "    lib::my_module::multiply(a, b)",
            "}",
        ]
        .join("\n")
    );
}

#[test]
fn test_generate_ios_ffi_module() {
    let generator = CodeGenerator::new();
    let schema = multiply_schema(TypeAnnotation::StringTypeAnnotation);
    let result = generator
        .generate_ios_ffi_module(&schema, &"lib".to_string())
        .unwrap();

    assert_eq!(
        result,
        [
            "use std::os::raw::*;",
            "use craby_core::ios::interop::string::*;",
            "",
            "#[no_mangle]",
            "pub extern \"C\" fn multiply(a: c_double, b: *const c_char) -> c_double {",
            "    let b = String::from_native(b).unwrap();",
            "    lib::my_module::multiply(a, b)",
            "}",
        ]
        .join("\n")
    );
}

#[test]
fn test_void_method_emits_no_return_annotation() {
    let generator = CodeGenerator::new();
    let schema = schema_with_methods(
        "MyModule",
        vec![FunctionSpec {
            name: "log_message".to_string(),
            optional: false,
            type_annotation: function_annotation(
                TypeAnnotation::VoidTypeAnnotation,
                vec![param("message", false, TypeAnnotation::StringTypeAnnotation)],
            ),
        }],
    );
    let result = generator.generate_module(&schema).unwrap();
    assert!(result.contains("pub fn log_message(message: String) {"));
    assert!(!result.contains("-> ()"));
}

#[test]
fn test_unsupported_parameter_fails_fast() {
    let generator = CodeGenerator::new();
    let schema = schema_with_methods(
        "MyModule",
        vec![FunctionSpec {
            name: "bad".to_string(),
            optional: false,
            type_annotation: function_annotation(
                TypeAnnotation::VoidTypeAnnotation,
                vec![param(
                    "blob",
                    false,
                    TypeAnnotation::ObjectTypeAnnotation { properties: None },
                )],
            ),
        }],
    );
    let err = generator.generate_module(&schema).unwrap_err();
    assert_eq!(err.construct, "ObjectTypeAnnotation");
    assert_eq!(err.module, "MyModule");
    assert_eq!(err.method, "bad");
    assert_eq!(err.param, "blob");
    let message = err.message();
    assert!(message.contains("ObjectTypeAnnotation"));
    assert!(message.contains("MyModule"));
}

#[test]
fn test_unsupported_variants_are_rejected() {
    let unsupported = vec![
        (
            TypeAnnotation::ObjectTypeAnnotation { properties: None },
            "ObjectTypeAnnotation",
        ),
        (
            TypeAnnotation::UnionTypeAnnotation {
                member_type: "NumberTypeAnnotation".to_string(),
                types: Vec::new(),
            },
            "UnionTypeAnnotation",
        ),
        (
            TypeAnnotation::ArrayTypeAnnotation {
                element_type: Box::new(TypeAnnotation::NumberTypeAnnotation),
            },
            "ArrayTypeAnnotation",
        ),
        (
            TypeAnnotation::EnumDeclaration {
                member_type: "StringTypeAnnotation".to_string(),
                members: Vec::new(),
            },
            "EnumDeclaration",
        ),
        (
            TypeAnnotation::TypeAliasTypeAnnotation {
                name: "Alias".to_string(),
            },
            "TypeAliasTypeAnnotation",
        ),
        (TypeAnnotation::MixedTypeAnnotation, "MixedTypeAnnotation"),
    ];
    for (annotation, expected) in unsupported {
        let err = annotation.to_rs_type().unwrap_err();
        assert_eq!(err.construct, expected);
    }
}

#[test]
fn test_optional_and_nullable_wrap_once() {
    // optional flag alone
    let p = param("age", true, TypeAnnotation::NumberTypeAnnotation);
    assert_eq!(p.to_rs_param().unwrap(), "age: Option<f64>");

    // nullable wrapper alone
    let p = param(
        "age",
        false,
        TypeAnnotation::NullableTypeAnnotation {
            type_annotation: Box::new(TypeAnnotation::NumberTypeAnnotation),
        },
    );
    assert_eq!(p.to_rs_param().unwrap(), "age: Option<f64>");

    // both signals, and a doubly nested nullable: still one wrapper
    let p = param(
        "age",
        true,
        TypeAnnotation::NullableTypeAnnotation {
            type_annotation: Box::new(TypeAnnotation::NullableTypeAnnotation {
                type_annotation: Box::new(TypeAnnotation::NumberTypeAnnotation),
            }),
        },
    );
    assert_eq!(p.to_rs_param().unwrap(), "age: Option<f64>");

    // neither signal
    let p = param("age", false, TypeAnnotation::NumberTypeAnnotation);
    assert_eq!(p.to_rs_param().unwrap(), "age: f64");
}

#[test]
fn test_resolution_total_over_supported_subset() {
    fn base(i: usize) -> TypeAnnotation {
        match i {
            0 => TypeAnnotation::BooleanTypeAnnotation,
            1 => TypeAnnotation::NumberTypeAnnotation,
            2 => TypeAnnotation::FloatTypeAnnotation,
            3 => TypeAnnotation::DoubleTypeAnnotation,
            4 => TypeAnnotation::Int32TypeAnnotation,
            5 => TypeAnnotation::NumberLiteralTypeAnnotation {
                value: "4".to_string(),
            },
            6 => TypeAnnotation::StringTypeAnnotation,
            7 => TypeAnnotation::StringLiteralTypeAnnotation {
                value: "x".to_string(),
            },
            8 => TypeAnnotation::StringLiteralUnionTypeAnnotation { values: Vec::new() },
            _ => TypeAnnotation::VoidTypeAnnotation,
        }
    }
    for i in 0..10 {
        for optional in [false, true] {
            for nullable in [false, true] {
                let annotation = if nullable {
                    TypeAnnotation::NullableTypeAnnotation {
                        type_annotation: Box::new(base(i)),
                    }
                } else {
                    base(i)
                };
                let p = param("v", optional, annotation);
                let text = p.to_rs_param().unwrap();
                assert!(!text.is_empty());
                // at most one nullable-wrapper level
                assert!(!text.contains("Option<Option<"));
                if optional || nullable {
                    assert!(text.contains("Option<"));
                }
            }
        }
    }
}

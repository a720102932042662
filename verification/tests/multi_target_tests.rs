//! Tests of the multi-target generators, the orchestrated pass, the
//! content hash, and the cross-file naming conventions.

use craby::context::{CodegenContext, CxxModuleName, CxxNamespace, ObjCProviderName, Schema, Signal};
use craby::gen_android::{AndroidGenerator, AndroidTemplate};
use craby::gen_cxx::{CxxGenerator, CxxTemplate};
use craby::gen_ios::IosGenerator;
use craby::gen_rs::RsGenerator;
use craby::schema::{FunctionSpec, Parameter, TypeAnnotation};

fn method(name: &str, ret: TypeAnnotation, params: Vec<(&str, TypeAnnotation)>) -> FunctionSpec {
    FunctionSpec {
        name: name.to_string(),
        optional: false,
        type_annotation: TypeAnnotation::FunctionTypeAnnotation {
            return_type_annotation: Box::new(ret),
            params: params
                .into_iter()
                .map(|(n, t)| Parameter {
                    name: n.to_string(),
                    optional: false,
                    type_annotation: t,
                })
                .collect(),
        },
    }
}

fn test_context() -> CodegenContext {
    CodegenContext {
        project_name: "my_test_project".to_string(),
        root: "/tmp/example".to_string(),
        schemas: vec![Schema {
            module_name: "MyTestModule".to_string(),
            aliases: Vec::new(),
            enums: Vec::new(),
            methods: vec![
                method(
                    "multiply",
                    TypeAnnotation::NumberTypeAnnotation,
                    vec![
                        ("a", TypeAnnotation::NumberTypeAnnotation),
                        ("b", TypeAnnotation::NumberTypeAnnotation),
                    ],
                ),
                method(
                    "greet",
                    TypeAnnotation::StringTypeAnnotation,
                    vec![("name", TypeAnnotation::StringTypeAnnotation)],
                ),
            ],
            signals: vec![Signal {
                name: "onProgress".to_string(),
            }],
        }],
        android_package_name: "com.example.mytest".to_string(),
    }
}

fn render_all(results: &[craby::gen_types::TemplateResult]) -> String {
    results
        .iter()
        .map(|res| format!("{}\n{}", res.path, res.content))
        .collect::<Vec<_>>()
        .join("\n\n")
}

#[test]
fn test_android_generator() {
    let ctx = test_context();
    let generator = AndroidGenerator::new();
    let results = generator.generate_artifacts(&ctx);
    let result = render_all(&results);

    let again = render_all(&AndroidGenerator::new().generate_artifacts(&ctx));
    assert_eq!(result, again);

    assert!(result.contains("/tmp/example/android/CMakeLists.txt"));
    assert!(result.contains("/tmp/example/android/build.gradle"));
    assert!(result.contains("/tmp/example/android/src/main/jni/OnLoad.cpp"));
    assert!(result.contains("#include <CxxMyTestModuleModule.hpp>"));
    assert!(result.contains("Java_com_example_mytest_MyTestProjectPackage_nativeSetDataPath"));
    assert!(result
        .contains("/tmp/example/android/src/main/java/com/example/mytest/MyTestProjectPackage.kt"));
    assert!(result.contains("\"__crabyMyTestModule_JNI_prepare__\""));
}

#[test]
fn test_cxx_generator() {
    let ctx = test_context();
    let generator = CxxGenerator::new();
    let results = generator.generate_artifacts(&ctx).unwrap();
    let result = render_all(&results);

    let again = render_all(&CxxGenerator::new().generate_artifacts(&ctx).unwrap());
    assert_eq!(result, again);

    assert!(result.contains("/tmp/example/cpp/CxxMyTestModuleModule.cpp"));
    assert!(result.contains("/tmp/example/cpp/CxxMyTestModuleModule.hpp"));
    assert!(result.contains("methodMap_[\"multiply\"] = MethodMetadata{2, &CxxMyTestModuleModule::multiply};"));
    assert!(result.contains("methodMap_[\"onProgress\"] = MethodMetadata{1, &CxxMyTestModuleModule::onProgress};"));
    assert!(result.contains("threadPool_ = std::make_shared<craby::utils::ThreadPool>(10);"));
    assert!(result.contains("if (invalidated_.exchange(true))"));
    assert!(result.contains("/tmp/example/crates/lib/include/CrabySignals.h"));
    assert!(result.contains("class ThreadPool"));
}

#[test]
fn test_ios_generator() {
    let ctx = test_context();
    let generator = IosGenerator::new();
    let results = generator.generate_artifacts(&ctx);
    let result = render_all(&results);

    let again = render_all(&IosGenerator::new().generate_artifacts(&ctx));
    assert_eq!(result, again);

    assert!(result.contains("/tmp/example/ios/MyTestProjectModuleProvider.mm"));
    assert!(result.contains("#import \"CxxMyTestModuleModule.hpp\""));
    assert!(result.contains("@implementation MyTestProjectModuleProvider"));
    assert!(result.contains("craby::mytestproject::modules::CxxMyTestModuleModule::kModuleName"));
}

#[test]
fn test_rs_generator() {
    let ctx = test_context();
    let generator = RsGenerator::new();
    let results = generator.generate_artifacts(&ctx).unwrap();
    let result = render_all(&results);

    let again = render_all(&RsGenerator::new().generate_artifacts(&ctx).unwrap());
    assert_eq!(result, again);

    assert!(result.contains("/tmp/example/crates/lib/src/lib.rs"));
    assert!(result.contains("pub(crate) mod my_test_module_impl;"));
    assert!(result.contains("pub trait MyTestModuleSpec {"));
    assert!(result.contains("fn multiply(&self, a: f64, b: f64) -> f64;"));
    assert!(result.contains("pub enum MyTestModuleSignal {"));
    assert!(result.contains("fn create_my_test_module(id: usize) -> Box<MyTestModule>;"));

    // The developer stub is a one-time scaffold; everything else is
    // regenerated.
    for res in &results {
        if res.path.ends_with("my_test_module_impl.rs") {
            assert!(!res.overwrite);
            assert!(res.content.contains("panic!(\"not yet implemented\");"));
        } else {
            assert!(res.overwrite);
        }
    }
}

#[test]
fn test_generate_all_is_deterministic_and_ordered() {
    let ctx = test_context();
    let first = craby::orchestrator::generate_all(&ctx).unwrap();
    let second = craby::orchestrator::generate_all(&ctx).unwrap();

    assert_eq!(first.len(), second.len());
    for (a, b) in first.iter().zip(second.iter()) {
        assert_eq!(a.path, b.path);
        assert_eq!(a.content, b.content);
        assert_eq!(a.overwrite, b.overwrite);
    }

    // Bridge artifacts come first, so downstream targets can assume them.
    assert!(first[0].path.ends_with("CxxMyTestModuleModule.cpp"));
}

#[test]
fn test_generate_all_fails_whole_run_on_unsupported_type() {
    let mut ctx = test_context();
    ctx.schemas[0].methods.push(method(
        "bad",
        TypeAnnotation::MixedTypeAnnotation,
        vec![],
    ));
    let err = craby::orchestrator::generate_all(&ctx).unwrap_err();
    assert_eq!(err.construct, "MixedTypeAnnotation");
    assert_eq!(err.module, "MyTestModule");
    assert_eq!(err.method, "bad");
}

#[test]
fn test_cross_file_naming_consistency() {
    let ctx = test_context();
    let class_name = CxxModuleName::new("MyTestModule").0;
    assert_eq!(class_name, "CxxMyTestModuleModule");
    assert_eq!(craby::context::cxx_mod_cls_name("MyTestModule"), class_name);

    let jni_entry = AndroidTemplate.jni_entry(&ctx);
    assert!(jni_entry.contains(&format!("#include <{}.hpp>", class_name)));

    let provider = craby::gen_ios::IosTemplate.module_provider(&ctx);
    assert!(provider.contains(&format!("#import \"{}.hpp\"", class_name)));

    let (cpp, hpp) = CxxTemplate.cxx_mod(&ctx.schemas[0]).unwrap();
    assert!(cpp.contains(&format!("#include \"{}.hpp\"", class_name)));
    assert!(hpp.contains(&format!("class JSI_EXPORT {} :", class_name)));

    let cmake = AndroidTemplate.cmakelists(&ctx);
    assert!(cmake.contains(&format!("../cpp/{}.cpp", class_name)));

    assert_eq!(CxxNamespace::new("my_test_project").0, "craby::mytestproject");
    assert_eq!(
        ObjCProviderName::new("my_test_project").0,
        "MyTestProjectModuleProvider"
    );
}

#[test]
fn test_schema_hash_is_stable_and_sensitive() {
    let ctx = test_context();
    let h1 = Schema::to_hash(&ctx.schemas);
    let h2 = Schema::to_hash(&test_context().schemas);
    assert_eq!(h1, h2);
    assert_eq!(h1.len(), 16);
    assert!(h1.chars().all(|c| c.is_ascii_hexdigit()));

    // renaming a method changes the hash
    let mut renamed = test_context();
    renamed.schemas[0].methods[0].name = "multiplied".to_string();
    assert_ne!(Schema::to_hash(&renamed.schemas), h1);

    // changing a parameter type changes the hash
    let mut retyped = test_context();
    retyped.schemas[0].methods[0] = method(
        "multiply",
        TypeAnnotation::NumberTypeAnnotation,
        vec![
            ("a", TypeAnnotation::NumberTypeAnnotation),
            ("b", TypeAnnotation::StringTypeAnnotation),
        ],
    );
    assert_ne!(Schema::to_hash(&retyped.schemas), h1);

    // changing a signal changes the hash
    let mut resignalled = test_context();
    resignalled.schemas[0].signals[0].name = "onDone".to_string();
    assert_ne!(Schema::to_hash(&resignalled.schemas), h1);

    // an empty schema list still hashes
    let empty: Vec<Schema> = Vec::new();
    assert_eq!(Schema::to_hash(&empty).len(), 16);
}

#[test]
fn test_generated_marker_annotation() {
    let annotated = craby::orchestrator::with_generated_comment("lib.rs", "fn x() {}");
    assert!(annotated.starts_with("// This file was generated by Craby"));
    let cmake = craby::orchestrator::with_generated_comment("CMakeLists.txt", "project(x)");
    assert!(cmake.starts_with("# This file was generated by Craby"));
    let unknown = craby::orchestrator::with_generated_comment("gradle.properties", "a=1");
    assert_eq!(unknown, "a=1\n");
    let scaffold = craby::orchestrator::without_generated_comment("fn y() {}");
    assert_eq!(scaffold, "fn y() {}\n");
}

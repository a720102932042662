//! Tests of the naming utilities, paths, runtime model, validators and
//! version checks.

use craby::artifact::{is_cxx_header_name, is_cxx_src_name, prebuilt_lib_name, ArtifactType, Artifacts};
use craby::constants;
use craby::env::Platform;
use craby::log::{sym, Status};
use craby::paths;
use craby::runtime::{ListenerRegistry, NativeObject, SignalRegistry, WorkerPool};
use craby::scaffold;
use craby::text::{
    contains_str, flat_case, indent_str, join_strings, kebab_case, pascal_case, sanitize_str,
    snake_case, usize_to_string, SanitizedString,
};
use craby::version::{get_version_from_message, is_valid_version};
use craby::xcode::{get_ios_targets, info_plist_content};

#[test]
fn test_java_base_path() {
    let project_root = "/root/project";
    let package_name = String::from("rs.craby.testmodule");

    assert_eq!(
        constants::java_base_path(project_root, &package_name),
        "/root/project/android/src/main/java/rs/craby/testmodule"
    );
}

#[test]
fn test_case_conversions() {
    assert_eq!(pascal_case("my test module"), "MyTestModule");
    assert_eq!(snake_case("MyTestModule"), "my_test_module");
    assert_eq!(kebab_case("MyTestModule"), "my-test-module");
    assert_eq!(flat_case("MyTestModule"), "mytestmodule");
    assert_eq!(craby::text::camel_case("MyTestModule"), "myTestModule");
}

#[test]
fn test_sanitize_str() {
    assert_eq!(sanitize_str("MyModule"), "my_module");
    assert_eq!(sanitize_str("multiply"), "multiply");
    assert_eq!(sanitize_str("my-module2x"), "my_module_x");
}

#[test]
fn test_sanitized_string() {
    let s = SanitizedString::new("My Module-2");
    assert_eq!(s.to_string(), "my_module_2");
    assert_eq!(s.to_str(), "my_module_2");
}

#[test]
fn test_text_utilities() {
    assert_eq!(usize_to_string(0), "0");
    assert_eq!(usize_to_string(1042), "1042");
    assert_eq!(
        join_strings(&vec!["a".to_string(), "b".to_string()], ", "),
        "a, b"
    );
    assert_eq!(join_strings(&Vec::new(), ", "), "");
    assert_eq!(indent_str("x\ny", 2), "  x\n  y");
    assert!(contains_str("hello world", "lo wo"));
    assert!(!contains_str("hello", "world"));
    assert!(contains_str("anything", ""));
}

#[test]
fn test_path_helpers() {
    assert_eq!(constants::crate_dir("/p"), "/p/crates/lib");
    assert_eq!(constants::crate_manifest_path("/p"), "/p/crates/lib/Cargo.toml");
    assert_eq!(constants::cxx_dir("/p"), "/p/cpp");
    assert_eq!(constants::android_src_main_path("/p"), "/p/android/src/main");
    assert_eq!(constants::jni_base_path("/p"), "/p/android/src/main/jni");
    assert_eq!(constants::ios_base_path("/p"), "/p/ios");
    assert_eq!(constants::craby_tmp_dir("/p"), "/p/.craby");
    assert_eq!(constants::impl_mod_name("SomeModule"), "some_module_impl");
    assert_eq!(
        constants::dest_lib_name(&SanitizedString::new("Some Library")),
        "libsomelibrary-prebuilt.a"
    );
    assert_eq!(paths::tmp_dir("/p"), "/p/.craby");
    assert_eq!(paths::crate_dir("/p", "android"), "/p/crates/android");
    assert_eq!(paths::android_build_gradle_path("/p"), "/p/android/build.gradle");
    assert_eq!(paths::android_jni_libs_dir("/p"), "/p/android/src/main/jniLibs");
    assert_eq!(
        paths::ios_framework_path("/p", "calc"),
        "/p/ios/framework/libcalc.xcframework"
    );
    assert_eq!(paths::binding_header_dir("/p"), "/p/.craby/include");
    assert_eq!(paths::to_lib_name(&"x".to_string(), Platform::Android), "libx.so");
    assert_eq!(paths::to_lib_name(&"x".to_string(), Platform::Ios), "libx.a");
}

#[test]
fn test_file_name_rules() {
    assert!(paths::is_header_file_name("lib.h"));
    assert!(!paths::is_header_file_name("lib.c"));
    assert!(paths::is_podspec_name("thing.podspec"));
    assert!(!paths::is_podspec_name("thing.podspec.bak"));
    assert!(is_cxx_src_name("ffi.rs.cc"));
    assert!(is_cxx_src_name("x.c"));
    assert!(!is_cxx_src_name("x.hh"));
    assert!(is_cxx_header_name("x.h"));
    assert!(is_cxx_header_name("x.hh"));
    assert!(!is_cxx_header_name("x.cc"));
}

#[test]
fn test_content_configuration_rules() {
    let gradle = "android { sourceSets { main { jniLibs.srcDirs += ['src/main/jniLibs'] } } }";
    assert!(paths::is_gradle_content_configured(gradle));
    assert!(!paths::is_gradle_content_configured("android {}"));

    let podspec = "s.vendored_frameworks = 'ios/framework/libcalc.xcframework'";
    assert!(paths::is_podspec_content_configured(podspec, "calc"));
    assert!(!paths::is_podspec_content_configured(podspec, "other"));
}

#[test]
fn test_artifacts_accessors() {
    let artifacts = Artifacts {
        identifier: "aarch64-apple-ios".to_string(),
        srcs: vec!["a.cc".to_string()],
        headers: vec!["a.h".to_string()],
        libs: vec!["liba.a".to_string()],
    };
    assert_eq!(artifacts.path_of(ArtifactType::Src), &vec!["a.cc".to_string()]);
    assert_eq!(artifacts.path_of(ArtifactType::Header), &vec!["a.h".to_string()]);
    assert_eq!(artifacts.path_of(ArtifactType::Lib), &vec!["liba.a".to_string()]);

    assert_eq!(
        prebuilt_lib_name("libcalc.a", "a"),
        Some("libcalc-prebuilt.a".to_string())
    );
    assert_eq!(prebuilt_lib_name("libcalc.so", "a"), None);
}

#[test]
fn test_xcode_helpers() {
    let targets = get_ios_targets();
    assert_eq!(
        targets,
        vec![
            "aarch64-apple-ios".to_string(),
            "aarch64-apple-ios-sim".to_string(),
            "x86_64-apple-ios".to_string(),
        ]
    );
    let plist = info_plist_content("calc", "Headers");
    assert!(plist.contains("<string>libcalc.a</string>"));
    assert!(plist.contains("<string>Headers</string>"));
    assert!(plist.contains("<string>ios-arm64-simulator</string>"));
    assert!(plist.contains("<string>XFWK</string>"));
}

#[test]
fn test_listener_lifecycle() {
    let mut registry = ListenerRegistry::new();
    let id1 = registry.subscribe("onProgress".to_string(), 71);
    let id2 = registry.subscribe("onProgress".to_string(), 72);
    assert_ne!(id1, id2);

    registry.unsubscribe(id1);
    assert_eq!(registry.snapshot("onProgress"), vec![id2]);

    // removing an already-removed id is a no-op
    registry.unsubscribe(id1);
    assert_eq!(registry.snapshot("onProgress"), vec![id2]);

    registry.unsubscribe(id2);
    assert_eq!(registry.snapshot("onProgress"), Vec::<u64>::new());

    // ids keep increasing after churn
    let id3 = registry.subscribe("onProgress".to_string(), 73);
    assert!(id3 > id2);
}

#[test]
fn test_worker_pool_shutdown() {
    let mut pool = WorkerPool::new(10);
    pool.enqueue(1);
    pool.enqueue(2);
    assert_eq!(pool.queue.len(), 2);
    pool.shutdown();
    assert_eq!(pool.queue.len(), 0);
    // enqueuing after shutdown is silently dropped: no panic, no growth
    pool.enqueue(3);
    assert_eq!(pool.queue.len(), 0);
}

#[test]
fn test_native_object_invalidate_once() {
    let mut object = NativeObject::new(9);
    let _ = object.listeners.subscribe("onProgress".to_string(), 5);
    object.pool.enqueue(4);
    object.invalidate();
    assert!(object.invalidated);
    assert!(object.pool.stopped);
    assert_eq!(object.pool.queue.len(), 0);
    assert_eq!(object.listeners.entries.len(), 0);
    let next_before = object.listeners.next_id;
    // the second invalidation performs no teardown work
    object.invalidate();
    assert!(object.invalidated);
    assert_eq!(object.listeners.next_id, next_before);
}

#[test]
fn test_signal_registry_idempotency() {
    let mut registry = SignalRegistry::new();
    registry.register(1, 100);
    registry.register(2, 200);
    // re-registering the same identity overwrites
    registry.register(1, 111);
    let pairs: Vec<(u64, u64)> = registry.delegates.clone();
    assert!(pairs.contains(&(1, 111)));
    assert!(pairs.contains(&(2, 200)));
    assert_eq!(pairs.len(), 2);
    // unregistering an absent identity is a no-op
    registry.unregister(3);
    assert_eq!(registry.delegates.len(), 2);
    registry.unregister(1);
    assert_eq!(registry.delegates, vec![(2, 200)]);
}

#[test]
fn test_validators() {
    assert!(scaffold::is_required_input("hello"));
    assert!(!scaffold::is_required_input("   "));
    assert!(!scaffold::is_required_input(""));
    assert!(scaffold::is_valid_email("dev@example.com"));
    assert!(!scaffold::is_valid_email("not-an-email"));
    assert!(scaffold::is_valid_url("https://craby.rs"));
    assert!(!scaffold::is_valid_url("::not a url::"));
}

#[test]
fn test_template_data() {
    let data = scaffold::build_template_data(
        "fast-calculator",
        "A calculator",
        "Dev",
        "dev@example.com",
        "https://example.com/repo",
        2026,
        "0.1.0",
    );
    assert_eq!(data.len(), 14);
    let get = |key: &str| {
        data.iter()
            .find(|e| e.key == key)
            .map(|e| e.value.clone())
            .unwrap()
    };
    assert_eq!(get("crate_name"), "fast_calculator");
    assert_eq!(get("pascal_name"), "FastCalculator");
    assert_eq!(get("kebab_name"), "fast-calculator");
    assert_eq!(get("flat_name"), "fastcalculator");
    assert_eq!(get("cxx_name"), "CxxFastCalculatorModule");
    assert_eq!(get("objc_provider"), "FastCalculatorModuleProvider");
    assert_eq!(get("pkg_version"), "^0.1.0");
    assert_eq!(get("year"), "2026");
    // sorted key order, as the template renderer expects
    let keys: Vec<&str> = data.iter().map(|e| e.key.as_str()).collect();
    let mut sorted = keys.clone();
    sorted.sort();
    assert_eq!(keys, sorted);
}

#[test]
fn test_version_checks() {
    assert!(is_valid_version("1.2.3"));
    assert!(is_valid_version("10.0.42-beta"));
    assert!(!is_valid_version("1.2"));
    assert!(!is_valid_version("v1.2.3"));
    assert!(!is_valid_version("..1"));
    assert!(!is_valid_version(""));
    assert_eq!(
        get_version_from_message("  1.2.3  "),
        Some("1.2.3".to_string())
    );
    assert_eq!(get_version_from_message("chore: tidy"), None);
}

#[test]
fn test_status_symbols() {
    let ok = sym(Status::Success);
    assert!(ok.contains('\u{2713}'));
    assert!(ok.starts_with('\u{1b}'));
    let warn = sym(Status::Warning);
    assert!(warn.contains('!'));
    assert_ne!(ok, warn);
}

#[test]
fn test_clean_performs() {
    let result = craby::clean::perform(craby::clean::CleanOptions {
        project_root: "/p".to_string(),
    });
    assert!(result.is_ok());
}

#[test]
fn test_scaffold_config_texts() {
    let metro = scaffold::metro_config_text();
    assert!(metro.contains("getMetroConfig(__dirname)"));
    let rn = scaffold::react_native_config_text();
    assert!(rn.contains("withWorkspaceModule(config, modulePackagePath)"));
    assert_eq!(scaffold::example_app_name("fast-calculator"), "FastCalculatorExample");
}
